use vstd::prelude::*;

use crate::brush::MAX_BRUSHES;
use crate::mesh::Mesh;
use crate::point::{Point, SCALE};

verus! {

/// Largest magnitude of an anchor coordinate or a border thickness; with it
/// every point of an outline fits in an `i64`.
pub const COORD_MAX: i64 = 0x1000_0000_0000_0000;

/// Number of points in the outline of one shape.
pub const OUTLINE_POINTS: usize = 12;

/// The point at `(x, y)`.
pub open spec fn pt(x: int, y: int) -> Point {
    Point { x: x as i64, y: y as i64 }
}

/// Anchors and border thicknesses whose outlines fit in machine integers.
pub open spec fn valid_anchor(p: Point, s: i64) -> bool {
    &&& -COORD_MAX <= p.x <= COORD_MAX
    &&& -COORD_MAX <= p.y <= COORD_MAX
    &&& -COORD_MAX <= s <= COORD_MAX
}

/// Local indices of the ten triangles of an outline, clockwise: the body
/// quad `p0 p1 p2 p3`, then the border ring between the outer corners
/// `q0..q3` (points 4 to 7) and the inner corners `g0..g3` (points 8 to 11).
pub open spec fn triangle_pattern() -> Seq<u32> {
    seq![
        0u32, 1, 3, 1, 2, 3,
        8, 4, 9, 9, 4, 5,
        5, 10, 9, 10, 5, 6,
        10, 6, 11, 11, 6, 7,
        7, 4, 8, 8, 11, 7,
    ]
}

/// Style indices of an outline: `brush` on the four body corners and its
/// paired border style `brush + MAX_BRUSHES` on the eight ring corners.
pub open spec fn outline_brushes(brush: u32) -> Seq<u32> {
    Seq::new(12, |j: int| if j < 4 { brush } else { (brush + MAX_BRUSHES) as u32 })
}

/// `pts` with the twelve points from `start` on replaced by `outline`.
pub open spec fn refreshed(pts: Seq<Point>, start: int, outline: Seq<Point>) -> Seq<Point> {
    Seq::new(
        pts.len(),
        |k: int| if start <= k < start + 12 { outline[k - start] } else { pts[k] },
    )
}

/// An axis-aligned rectangle: its size in document units and its style.
#[derive(Clone, Copy, Debug, PartialEq, Eq, Structural)]
pub struct Rect {
    pub width: u32,
    pub height: u32,
    pub brush: u32,
}

impl Rect {
    /// The style index names an entry of the style table.
    pub open spec fn wf(&self) -> bool {
        self.brush < MAX_BRUSHES
    }

    /// The twelve outline points for top-left corner `p` and border `s`:
    /// the corners `p0..p3` clockwise from `p`, the outer ring `q0..q3`
    /// pushed `s` away from the body on both axes, and the inner ring
    /// `g0..g3` pulled `s` into it.
    pub open spec fn outline(self, p: Point, s: i64) -> Seq<Point> {
        let (x, y) = (p.x as int, p.y as int);
        let (w, h) = (self.width * SCALE, self.height * SCALE);
        seq![
            pt(x, y),
            pt(x, y + h),
            pt(x + w, y + h),
            pt(x + w, y),
            pt(x - s, y - s),
            pt(x - s, y + h + s),
            pt(x + w + s, y + h + s),
            pt(x + w + s, y - s),
            pt(x + s, y + s),
            pt(x + s, y + h - s),
            pt(x + w - s, y + h - s),
            pt(x + w - s, y + s),
        ]
    }

    /// Points, style indices and triangle indices of the mesh of this shape
    /// alone at top-left corner `p` with border `s`.
    pub open spec fn mesh_parts(self, p: Point, s: i64) -> (Seq<Point>, Seq<u32>, Seq<u32>) {
        (self.outline(p, s), outline_brushes(self.brush), triangle_pattern())
    }

    /// The mesh of one shape alone: its outline, its style indices and
    /// the fixed triangle pattern.
    pub fn mesh(&self, p: Point, s: i64) -> (r: Mesh)
        requires
            self.wf(),
            valid_anchor(p, s),
        ensures
            r.wf(),
            r.points@ == self.outline(p, s),
            r.brushes@ == outline_brushes(self.brush),
            r.indices@ == triangle_pattern(),
            (r.points@, r.brushes@, r.indices@) == self.mesh_parts(p, s),
    {
        let outline = self.points(p, s);
        let mut points: Vec<Point> = Vec::with_capacity(OUTLINE_POINTS);
        let mut i: usize = 0;
        while i < OUTLINE_POINTS
            invariant
                outline@ == self.outline(p, s),
                i <= OUTLINE_POINTS,
                points@ == outline@.subrange(0, i as int),
            decreases OUTLINE_POINTS - i,
        {
            points.push(outline[i]);
            i = i + 1;
        }
        assert(points@ == outline@);

        let indices: Vec<u32> = vec![
            0, 1, 3, 1, 2, 3,
            8, 4, 9, 9, 4, 5,
            5, 10, 9, 10, 5, 6,
            10, 6, 11, 11, 6, 7,
            7, 4, 8, 8, 11, 7,
        ];

        let mut brushes = vec![self.brush; OUTLINE_POINTS];
        let mut i: usize = 4;
        while i < OUTLINE_POINTS
            invariant
                self.wf(),
                4 <= i <= OUTLINE_POINTS,
                brushes@.len() == OUTLINE_POINTS,
                forall|j: int| 0 <= j < i ==> #[trigger] brushes@[j] == outline_brushes(self.brush)[j],
                forall|j: int| i <= j < OUTLINE_POINTS ==> #[trigger] brushes@[j] == self.brush,
            decreases OUTLINE_POINTS - i,
        {
            let b = brushes[i];
            brushes.set(i, b + MAX_BRUSHES as u32);
            i = i + 1;
        }
        assert(brushes@ == outline_brushes(self.brush));
        assert(indices@ == triangle_pattern());

        Mesh { points, brushes, indices }
    }

    /// Rewrites, in place, the outline of the shape at `index` (the twelve
    /// points from `index * 12` on) for top-left corner `p` and border `s`;
    /// nothing else in `mesh` changes.
    pub fn update(&self, p: Point, s: i64, index: usize, mesh: &mut Mesh)
        requires
            valid_anchor(p, s),
            (index + 1) * OUTLINE_POINTS <= old(mesh).points.len(),
        ensures
            final(mesh).points@ == refreshed(
                old(mesh).points@,
                index * OUTLINE_POINTS,
                self.outline(p, s),
            ),
            final(mesh).brushes@ == old(mesh).brushes@,
            final(mesh).indices@ == old(mesh).indices@,
    {
        let outline = self.points(p, s);
        let j = index * OUTLINE_POINTS;
        let mut i: usize = 0;
        while i < OUTLINE_POINTS
            invariant
                outline@ == self.outline(p, s),
                j == index * OUTLINE_POINTS,
                j + OUTLINE_POINTS <= mesh.points.len(),
                i <= OUTLINE_POINTS,
                mesh.points.len() == old(mesh).points.len(),
                mesh.brushes@ == old(mesh).brushes@,
                mesh.indices@ == old(mesh).indices@,
                forall|k: int|
                    0 <= k < mesh.points.len() ==> #[trigger] mesh.points@[k] == if j <= k < j + i {
                        outline@[k - j]
                    } else {
                        old(mesh).points@[k]
                    },
            decreases OUTLINE_POINTS - i,
        {
            mesh.points.set(j + i, outline[i]);
            i = i + 1;
        }
        assert(mesh.points@ == refreshed(old(mesh).points@, j as int, outline@));
    }

    /// The twelve outline points for top-left corner `p` and border `s`.
    pub fn points(&self, p: Point, s: i64) -> (r: [Point; 12])
        requires
            valid_anchor(p, s),
        ensures
            r@ == self.outline(p, s),
    {
        let w = self.width as i64 * SCALE;
        let h = self.height as i64 * SCALE;

        let p0 = Point { x: p.x, y: p.y };
        let p1 = Point { x: p.x, y: p.y + h };
        let p2 = Point { x: p.x + w, y: p.y + h };
        let p3 = Point { x: p.x + w, y: p.y };

        let q0 = Point { x: p0.x - s, y: p0.y - s };
        let q1 = Point { x: p1.x - s, y: p1.y + s };
        let q2 = Point { x: p2.x + s, y: p2.y + s };
        let q3 = Point { x: p3.x + s, y: p3.y - s };

        let g0 = Point { x: p0.x + s, y: p0.y + s };
        let g1 = Point { x: p1.x + s, y: p1.y - s };
        let g2 = Point { x: p2.x - s, y: p2.y - s };
        let g3 = Point { x: p3.x - s, y: p3.y + s };

        let r = [p0, p1, p2, p3, q0, q1, q2, q3, g0, g1, g2, g3];
        assert(r@ == self.outline(p, s));
        r
    }
}

/// The triangle indices of a shape's mesh are the same whatever its size,
/// style, anchor and border. Two shapes of one size give the same points at
/// the same anchor and border; only their style indices differ, which are
/// the shape's style on the four body points and that style plus
/// `MAX_BRUSHES` on the eight ring points.
pub proof fn lemma_pattern_shared(r1: Rect, r2: Rect, p1: Point, p2: Point, s1: i64, s2: i64)
    ensures
        r1.mesh_parts(p1, s1).2 == r2.mesh_parts(p2, s2).2,
        r1.width == r2.width && r1.height == r2.height ==> r1.mesh_parts(p1, s1).0 == r2.mesh_parts(
            p1,
            s1,
        ).0,
        r1.wf() ==> r1.mesh_parts(p1, s1).1.len() == 12 && forall|k: int|
            0 <= k < 12 ==> #[trigger] r1.mesh_parts(p1, s1).1[k] == if k < 4 {
                r1.brush as int
            } else {
                r1.brush + MAX_BRUSHES
            },
{
}

/// Rewriting the outline of a shape twice with the same anchor and border
/// leaves the same points as rewriting it once.
pub proof fn lemma_update_idempotent(rect: Rect, p: Point, s: i64, index: int, points: Seq<Point>)
    ensures
        refreshed(
            refreshed(points, index * 12, rect.outline(p, s)),
            index * 12,
            rect.outline(p, s),
        ) == refreshed(points, index * 12, rect.outline(p, s)),
{
    let once = refreshed(points, index * 12, rect.outline(p, s));
    let twice = refreshed(once, index * 12, rect.outline(p, s));
    assert(twice =~= once);
}

} // verus!
