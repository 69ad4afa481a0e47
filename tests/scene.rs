use shapefield::brush::MAX_BRUSHES;
use shapefield::camera::{create_orthographic_matrix_with_camera, Screen};
use shapefield::document::{Document, CELL_DIVISOR, DT, STEP_MAX, VELOCITY_MAX};
use shapefield::point::{Point, SCALE};
use shapefield::rect::Rect;

/// Moves entity 0 and brings its outline in the mesh in step with it.
fn place(doc: &mut Document, pos: Point, vel: Point) {
    doc.positions[0] = pos;
    doc.velocities[0] = vel;
    let rect = doc.rects[0];
    rect.update(pos, doc.stroke, 0, &mut doc.mesh);
}

fn check_mesh_matches(doc: &Document) {
    for i in 0..doc.count {
        let want = doc.rects[i].points(doc.positions[i], doc.stroke);
        assert_eq!(doc.mesh.points[12 * i..12 * i + 12].to_vec(), want.to_vec());
    }
}

#[test]
fn random_scene_layout() {
    let doc = Document::random(1000, 800, SCALE, 50);
    assert_eq!(doc.width, 1000 * SCALE);
    assert_eq!(doc.height, 800 * SCALE);
    assert_eq!(doc.count, 50);
    assert_eq!(doc.new_count, 50);
    assert_eq!(doc.rects.len(), 50);
    assert_eq!(doc.positions.len(), 50);
    assert_eq!(doc.velocities.len(), 50);
    let (max_w, max_h) = (1000 / CELL_DIVISOR, 800 / CELL_DIVISOR);
    for i in 0..50 {
        let r = doc.rects[i];
        assert!(max_w / 4 <= r.width && r.width < max_w);
        assert!(max_h / 4 <= r.height && r.height < max_h);
        let p = doc.positions[i];
        assert!(0 <= p.x && p.x < (1000 - max_w) as i64 * SCALE);
        assert!(0 <= p.y && p.y < (800 - max_h) as i64 * SCALE);
        assert_eq!(p.x % SCALE, 0);
        assert_eq!(p.y % SCALE, 0);
        let v = doc.velocities[i];
        assert!(-VELOCITY_MAX <= v.x && v.x <= VELOCITY_MAX);
        assert!(-VELOCITY_MAX <= v.y && v.y <= VELOCITY_MAX);
    }
    check_mesh_matches(&doc);
}

#[test]
fn random_values_vary() {
    let doc = Document::random(1000, 1000, SCALE, 100);
    let v0 = doc.velocities[0];
    assert!(doc.velocities.iter().any(|v| *v != v0));
    let p0 = doc.positions[0];
    assert!(doc.positions.iter().any(|p| *p != p0));
    assert!(doc.velocities.iter().any(|v| v.x != -VELOCITY_MAX));
}

#[test]
fn style_index_wraps_around_table() {
    let doc = Document::random(1000, 1000, SCALE, 37);
    assert_eq!(doc.rects[16].brush, doc.rects[0].brush);
    assert_eq!(doc.rects[32].brush, doc.rects[0].brush);
    for i in 0..37 {
        assert_eq!(doc.rects[i].brush as usize, i % MAX_BRUSHES);
        assert_eq!(doc.mesh.brushes[12 * i], doc.rects[i].brush);
        assert_eq!(doc.mesh.brushes[12 * i + 4], doc.rects[i].brush + MAX_BRUSHES as u32);
    }
}

#[test]
fn bounce_reverses_outward_motion() {
    let mut doc = Document::random(1000, 1000, SCALE, 1);
    let x = doc.width + SCALE;
    place(&mut doc, Point { x, y: 500 * SCALE }, Point { x: 100, y: 0 });
    check_mesh_matches(&doc);
    doc.update();
    assert_eq!(doc.velocities[0].x, -100);
    assert!(doc.positions[0].x < x);
    assert_eq!(doc.positions[0].x, x - 100 * DT);
    assert_eq!(doc.positions[0].y, 500 * SCALE);
    check_mesh_matches(&doc);
}

#[test]
fn bounce_at_left_and_top_edges() {
    let mut doc = Document::random(1000, 1000, SCALE, 1);
    place(&mut doc, Point { x: -1, y: -1 }, Point { x: -300, y: -7 });
    doc.update();
    assert_eq!(doc.velocities[0], Point { x: 300, y: 7 });
    assert_eq!(doc.positions[0], Point { x: -1 + 300 * DT, y: -1 + 7 * DT });
}

#[test]
fn no_bounce_when_moving_back() {
    let mut doc = Document::random(1000, 1000, SCALE, 1);
    let x = doc.width + SCALE;
    place(&mut doc, Point { x, y: 10 }, Point { x: -100, y: 20 });
    doc.update();
    assert_eq!(doc.velocities[0], Point { x: -100, y: 20 });
    assert_eq!(doc.positions[0], Point { x: x - 100 * DT, y: 10 + 20 * DT });
}

#[test]
fn end_to_end_scene() {
    let mut doc = Document::random(1000, 1000, SCALE, 100);
    assert_eq!(doc.mesh.points.len(), 1200);
    assert_eq!(doc.mesh.brushes.len(), 1200);
    assert_eq!(doc.mesh.indices.len(), 3000);
    let indices = doc.mesh.indices.clone();
    for _ in 0..1000 {
        doc.update();
        for p in &doc.positions {
            assert!(-STEP_MAX <= p.x && p.x <= doc.width + STEP_MAX);
            assert!(-STEP_MAX <= p.y && p.y <= doc.height + STEP_MAX);
        }
    }
    assert_eq!(doc.mesh.points.len(), 1200);
    assert_eq!(doc.mesh.indices, indices);
    check_mesh_matches(&doc);
}

#[test]
fn count_change_is_only_recorded() {
    let mut doc = Document::random(1000, 1000, SCALE, 10);
    doc.update_count(500);
    assert_eq!(doc.new_count, 500);
    assert_eq!(doc.count, 10);
    assert_eq!(doc.mesh.points.len(), 120);
}

#[test]
fn pan_maps_to_clip_origin() {
    let cases = [
        (Screen::new(800, 600), 1000 * SCALE, 1000 * SCALE),
        (Screen::new(1, 1), 7 * SCALE, 3 * SCALE),
        (Screen::new(1920, 1080), 123_456, 654_321),
    ];
    for (mut screen, dw, dh) in cases {
        for (pan, zoom) in [(Point { x: 0, y: 0 }, SCALE), (Point { x: -12_345, y: 987_654 }, 3 * SCALE / 2)] {
            screen.update_pos(pan);
            screen.update_scale(zoom);
            let m = create_orthographic_matrix_with_camera(&screen, dw, dh);
            let s = SCALE as i128;
            assert_eq!(m.num[0] * pan.x as i128 + m.num[12] * s, 0);
            assert_eq!(m.num[5] * pan.y as i128 + m.num[13] * s, 0);
        }
    }
}

#[test]
fn projection_values() {
    let screen = Screen::new(800, 600);
    assert_eq!(screen.pos, Point { x: 400 * SCALE, y: 300 * SCALE });
    assert_eq!(screen.scale, SCALE);
    let m = create_orthographic_matrix_with_camera(&screen, 1000 * SCALE, 1000 * SCALE);
    let e = |k: usize| m.num[k] as f64 / m.den as f64;
    assert!(m.den > 0);
    assert!((e(0) - 2.0 / 600.0).abs() < 1e-12);
    assert!((e(5) + 2.0 / 600.0).abs() < 1e-12);
    assert!((e(10) + 1.0).abs() < 1e-12);
    assert!((e(12) + 4.0 / 3.0).abs() < 1e-12);
    assert!((e(13) - 1.0).abs() < 1e-12);
    assert!((e(15) - 1.0).abs() < 1e-12);
    for k in [1, 2, 3, 4, 6, 7, 8, 9, 11, 14] {
        assert_eq!(m.num[k], 0);
    }
}

#[test]
fn projection_follows_zoom_and_aspect() {
    let mut screen = Screen::new(800, 600);
    screen.update_scale(2 * SCALE);
    let m = create_orthographic_matrix_with_camera(&screen, 2000 * SCALE, 1000 * SCALE);
    let e = |k: usize| m.num[k] as f64 / m.den as f64;
    assert!((e(0) - 2.0 / 600.0).abs() < 1e-12);
    assert!((e(5) + 4.0 / 600.0).abs() < 1e-12);
}

#[test]
fn projection_only_when_dirty() {
    let mut screen = Screen::new(640, 480);
    let (dw, dh) = (1000 * SCALE, 1000 * SCALE);
    assert!(screen.projection_matrix_if_dirty(dw, dh).is_some());
    assert!(!screen.is_modified);
    assert!(screen.projection_matrix_if_dirty(dw, dh).is_none());
    screen.update_pos(Point { x: 0, y: 0 });
    assert!(screen.projection_matrix_if_dirty(dw, dh).is_some());
    assert!(screen.projection_matrix_if_dirty(dw, dh).is_none());
    screen.update_size(100, 200);
    assert_eq!((screen.width, screen.height), (100, 200));
    assert!(screen.projection_matrix_if_dirty(dw, dh).is_some());
    screen.update_scale(SCALE / 2);
    assert!(screen.projection_matrix_if_dirty(dw, dh).is_some());
}

#[test]
fn build_arguments_checked() {
    assert!(Document::can_build(1000, 1000, SCALE, 100));
    assert!(Document::can_build(CELL_DIVISOR, CELL_DIVISOR, 0, 1));
    assert!(!Document::can_build(CELL_DIVISOR - 1, 1000, SCALE, 100));
    assert!(!Document::can_build(1000, 0, SCALE, 100));
    assert!(!Document::can_build(1000, 1000, SCALE, 0));
}

#[test]
fn smallest_canvas_scene() {
    let mut doc = Document::random(CELL_DIVISOR, CELL_DIVISOR, SCALE, 3);
    for r in &doc.rects {
        assert_eq!((r.width, r.height), (0, 0));
    }
    for _ in 0..100 {
        doc.update();
    }
    check_mesh_matches(&doc);
}

#[test]
fn largest_canvas_scene() {
    let mut doc = Document::random(u32::MAX, u32::MAX, SCALE, 2);
    assert_eq!(doc.width, u32::MAX as i64 * SCALE);
    for _ in 0..10 {
        doc.update();
    }
    check_mesh_matches(&doc);
    let mut screen = Screen::new(u32::MAX, u32::MAX);
    assert!(screen.can_project(doc.width, doc.height));
    let m = screen.projection_matrix_if_dirty(doc.width, doc.height).unwrap();
    assert!(m.den > 0);
}

#[test]
fn scene_from_given_entities() {
    let rects = vec![
        Rect { width: 10, height: 20, brush: 0 },
        Rect { width: 3, height: 4, brush: 7 },
    ];
    let positions = vec![Point { x: 0, y: 0 }, Point { x: 50 * SCALE, y: 60 * SCALE }];
    let velocities = vec![Point { x: 100, y: -100 }, Point { x: 0, y: 500 }];
    let mut doc = Document::new(100, 100, 2 * SCALE, rects.clone(), positions.clone(), velocities.clone());
    assert_eq!((doc.width, doc.height, doc.stroke), (100 * SCALE, 100 * SCALE, 2 * SCALE));
    assert_eq!((doc.count, doc.new_count, doc.active), (2, 2, 0));
    assert_eq!(doc.rects, rects);
    assert_eq!(doc.positions, positions);
    assert_eq!(doc.velocities, velocities);
    assert_eq!(doc.mesh.points[0], Point { x: 0, y: 0 });
    assert_eq!(doc.mesh.points[2], Point { x: 10 * SCALE, y: 20 * SCALE });
    assert_eq!(doc.mesh.points[4], Point { x: -2 * SCALE, y: -2 * SCALE });
    assert_eq!(doc.mesh.points[12], Point { x: 50 * SCALE, y: 60 * SCALE });
    assert_eq!(doc.mesh.brushes[..12], [0, 0, 0, 0, 16, 16, 16, 16, 16, 16, 16, 16]);
    assert_eq!(doc.mesh.brushes[12..], [7, 7, 7, 7, 23, 23, 23, 23, 23, 23, 23, 23]);
    assert_eq!(doc.mesh.indices[30..36], [12, 13, 15, 13, 14, 15]);
    check_mesh_matches(&doc);

    doc.update();
    assert_eq!(doc.positions[0], Point { x: 100 * DT, y: -100 * DT });
    assert_eq!(doc.positions[1], Point { x: 50 * SCALE, y: 60 * SCALE + 500 * DT });
    check_mesh_matches(&doc);
}
