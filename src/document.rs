use vstd::prelude::*;

use rand::Rng;

use crate::brush::MAX_BRUSHES;
use crate::mesh::{rebased, Mesh};
use crate::point::{Point, SCALE};
use crate::rect::{outline_brushes, refreshed, triangle_pattern, Rect, COORD_MAX, OUTLINE_POINTS};

verus! {

/// Time that one frame advances the physics by; velocities are in steps
/// per unit of it.
pub const DT: i64 = 50;

/// Largest magnitude of a velocity component (0.05 document units).
pub const VELOCITY_MAX: i64 = 500;

/// Largest distance an entity travels on one axis in one frame, and so
/// how far it can be outside the canvas.
pub const STEP_MAX: i64 = VELOCITY_MAX * DT;

/// A shape's largest size is the canvas size divided by this.
pub const CELL_DIVISOR: u32 = 32;

/// Largest population: the points of its mesh stay indexable by `u32`.
pub const COUNT_MAX: usize = 357_913_941;

/// Relies on rand's `Rng::gen_range` over `thread_rng()`: it returns a value
/// of the half-open range `lo..hi`, and panics only on an empty range.
#[verifier::external_body]
fn random_in(lo: i64, hi: i64) -> (r: i64)
    requires
        lo < hi,
    ensures
        lo <= r < hi,
{
    rand::thread_rng().gen_range(lo..hi)
}

/// The velocity component `vel` after the bounce check at position `pos`
/// on an axis running from 0 to `bound`: reversed when the entity is past
/// an edge and still moving away from the canvas.
pub open spec fn bounced(pos: i64, vel: i64, bound: i64) -> int {
    if (pos > bound && vel > 0) || (pos < 0 && vel < 0) {
        -vel
    } else {
        vel as int
    }
}

/// Position and velocity of an entity after one frame on a canvas of
/// `width` by `height`.
pub open spec fn advanced(pos: Point, vel: Point, width: i64, height: i64) -> (Point, Point) {
    let v = Point { x: bounced(pos.x, vel.x, width) as i64, y: bounced(pos.y, vel.y, height) as i64 };
    (Point { x: (pos.x + v.x * DT) as i64, y: (pos.y + v.y * DT) as i64 }, v)
}

/// The state that the physics keeps: velocities bounded by `VELOCITY_MAX`,
/// positions at most one frame's travel outside the canvas.
pub open spec fn in_motion_bounds(pos: Point, vel: Point, width: i64, height: i64) -> bool {
    &&& -VELOCITY_MAX <= vel.x <= VELOCITY_MAX
    &&& -VELOCITY_MAX <= vel.y <= VELOCITY_MAX
    &&& -STEP_MAX <= pos.x <= width + STEP_MAX
    &&& -STEP_MAX <= pos.y <= height + STEP_MAX
}

/// Points of the scene mesh: the outline of entity `i` at `12 * i`.
pub open spec fn scene_points(rects: Seq<Rect>, positions: Seq<Point>, stroke: i64) -> Seq<Point> {
    Seq::new(12 * rects.len(), |k: int| rects[k / 12].outline(positions[k / 12], stroke)[k % 12])
}

/// Style indices of the scene mesh, twelve per entity.
pub open spec fn scene_brushes(rects: Seq<Rect>) -> Seq<u32> {
    Seq::new(12 * rects.len(), |k: int| outline_brushes(rects[k / 12].brush)[k % 12])
}

/// Indices of the scene mesh for `n` entities: the triangle pattern of
/// entity `i` at `30 * i`, rebased onto its points at `12 * i`.
pub open spec fn scene_indices(n: nat) -> Seq<u32> {
    Seq::new(30 * n, |k: int| (triangle_pattern()[k % 30] + 12 * (k / 30)) as u32)
}

/// The population of bouncing shapes and the one mesh that draws them.
pub struct Document {
    /// Canvas size, in steps.
    pub width: i64,
    pub height: i64,
    /// Border thickness of every shape, in steps.
    pub stroke: i64,
    /// Per entity: its shape, the top-left corner of its body and its
    /// velocity.
    pub rects: Vec<Rect>,
    pub positions: Vec<Point>,
    pub velocities: Vec<Point>,
    pub mesh: Mesh,
    /// Offset of a partial update pass; each pass still moves every entity.
    pub active: usize,
    /// The population size last asked for; the buffers keep `count`.
    pub new_count: usize,
    pub count: usize,
}

impl Document {
    /// A population of `count` entities with random positions, sizes and
    /// velocities on a canvas of `width` by `height` units, drawn with
    /// border `stroke`. The largest shape side is a 32nd of the canvas side
    /// (`CELL_DIVISOR`) and the smallest a quarter of that; a position is a
    /// whole unit that leaves room for the largest shape; each velocity
    /// component lies in `[-VELOCITY_MAX, VELOCITY_MAX]`; entity `i` has
    /// style `i % MAX_BRUSHES`. The mesh holds the entities' outlines in
    /// entity order.
    pub fn random(width: u32, height: u32, stroke: i64, count: usize) -> (r: Self)
        requires
            CELL_DIVISOR <= width,
            CELL_DIVISOR <= height,
            1 <= count <= COUNT_MAX,
            -COORD_MAX <= stroke <= COORD_MAX,
        ensures
            r.wf(),
            r.width == width * SCALE,
            r.height == height * SCALE,
            r.stroke == stroke,
            r.count == count,
            r.new_count == count,
            r.active == 0,
            forall|i: int|
                0 <= i < count ==> {
                    let rect = #[trigger] r.rects@[i];
                    &&& rect.brush == i % MAX_BRUSHES as int
                    &&& width / CELL_DIVISOR / 4 <= rect.width < width / CELL_DIVISOR
                    &&& height / CELL_DIVISOR / 4 <= rect.height < height / CELL_DIVISOR
                },
            forall|i: int|
                0 <= i < count ==> {
                    let pos = #[trigger] r.positions@[i];
                    &&& 0 <= pos.x < (width - width / CELL_DIVISOR) * SCALE
                    &&& 0 <= pos.y < (height - height / CELL_DIVISOR) * SCALE
                    &&& pos.x % SCALE == 0
                    &&& pos.y % SCALE == 0
                },
            forall|i: int|
                0 <= i < count ==> {
                    let vel = #[trigger] r.velocities@[i];
                    &&& -VELOCITY_MAX <= vel.x <= VELOCITY_MAX
                    &&& -VELOCITY_MAX <= vel.y <= VELOCITY_MAX
                },
    {
        let max_width = width / CELL_DIVISOR;
        let max_height = height / CELL_DIVISOR;
        let min_width = max_width / 4;
        let min_height = max_height / 4;

        let x_span = (width - max_width) as i64;
        let y_span = (height - max_height) as i64;

        let mut rects: Vec<Rect> = Vec::with_capacity(count);
        let mut positions: Vec<Point> = Vec::with_capacity(count);
        let mut velocities: Vec<Point> = Vec::with_capacity(count);

        let mut i: usize = 0;
        while i < count
            invariant
                i <= count <= COUNT_MAX,
                1 <= max_width == width / CELL_DIVISOR,
                1 <= max_height == height / CELL_DIVISOR,
                min_width == max_width / 4,
                min_height == max_height / 4,
                x_span == width - max_width,
                y_span == height - max_height,
                rects.len() == i,
                positions.len() == i,
                velocities.len() == i,
                forall|k: int|
                    0 <= k < i ==> {
                        let rect = #[trigger] rects@[k];
                        &&& rect.brush == k % MAX_BRUSHES as int
                        &&& min_width <= rect.width < max_width
                        &&& min_height <= rect.height < max_height
                    },
                forall|k: int|
                    0 <= k < i ==> {
                        let pos = #[trigger] positions@[k];
                        &&& 0 <= pos.x < x_span * SCALE
                        &&& 0 <= pos.y < y_span * SCALE
                        &&& pos.x % SCALE == 0
                        &&& pos.y % SCALE == 0
                    },
                forall|k: int|
                    0 <= k < i ==> {
                        let vel = #[trigger] velocities@[k];
                        &&& -VELOCITY_MAX <= vel.x <= VELOCITY_MAX
                        &&& -VELOCITY_MAX <= vel.y <= VELOCITY_MAX
                    },
            decreases count - i,
        {
            let x = random_in(0, x_span);
            let y = random_in(0, y_span);

            let vx = random_in(-VELOCITY_MAX, VELOCITY_MAX + 1);
            let vy = random_in(-VELOCITY_MAX, VELOCITY_MAX + 1);

            let pos = Point { x: x * SCALE, y: y * SCALE };
            proof {
                vstd::arithmetic::div_mod::lemma_mod_multiples_basic(x as int, SCALE as int);
                vstd::arithmetic::div_mod::lemma_mod_multiples_basic(y as int, SCALE as int);
            }
            positions.push(pos);
            velocities.push(Point { x: vx, y: vy });

            let w = random_in(min_width as i64, max_width as i64) as u32;
            let h = random_in(min_height as i64, max_height as i64) as u32;

            let brush = (i % MAX_BRUSHES) as u32;

            rects.push(Rect { width: w, height: h, brush });
            i = i + 1;
        }

        assert forall|k: int| 0 <= k < count implies in_motion_bounds(
            #[trigger] positions@[k],
            velocities@[k],
            (width * SCALE) as i64,
            (height * SCALE) as i64,
        ) by {
            assert(positions@[k].x < x_span * SCALE);
            assert(velocities@[k].x <= VELOCITY_MAX);
        }
        Self::new(width, height, stroke, rects, positions, velocities)
    }

    /// The scene of the given entities on a canvas of `width` by `height`
    /// units, drawn with border `stroke`: entity `i` has shape `rects[i]`,
    /// top-left corner `positions[i]` and velocity `velocities[i]`, and the
    /// mesh holds the entities' outlines in entity order.
    pub fn new(
        width: u32,
        height: u32,
        stroke: i64,
        rects: Vec<Rect>,
        positions: Vec<Point>,
        velocities: Vec<Point>,
    ) -> (r: Self)
        requires
            rects.len() <= COUNT_MAX,
            positions.len() == rects.len(),
            velocities.len() == rects.len(),
            -COORD_MAX <= stroke <= COORD_MAX,
            forall|i: int| 0 <= i < rects.len() ==> (#[trigger] rects@[i]).wf(),
            forall|i: int|
                0 <= i < rects.len() ==> in_motion_bounds(
                    #[trigger] positions@[i],
                    velocities@[i],
                    (width * SCALE) as i64,
                    (height * SCALE) as i64,
                ),
        ensures
            r.wf(),
            r.width == width * SCALE,
            r.height == height * SCALE,
            r.stroke == stroke,
            r.rects@ == rects@,
            r.positions@ == positions@,
            r.velocities@ == velocities@,
            r.count == rects.len(),
            r.new_count == rects.len(),
            r.active == 0,
    {
        let count = rects.len();
        let mut mesh = Mesh::with_capacity(OUTLINE_POINTS * count);

        let mut i: usize = 0;
        while i < count
            invariant
                count == rects.len() == positions.len() <= COUNT_MAX,
                i <= count,
                -COORD_MAX <= stroke <= COORD_MAX,
                forall|k: int| 0 <= k < count ==> (#[trigger] rects@[k]).wf(),
                forall|k: int|
                    0 <= k < count ==> in_motion_bounds(
                        #[trigger] positions@[k],
                        velocities@[k],
                        (width * SCALE) as i64,
                        (height * SCALE) as i64,
                    ),
                mesh.wf(),
                mesh.points@ == scene_points(rects@.take(i as int), positions@.take(i as int), stroke),
                mesh.brushes@ == scene_brushes(rects@.take(i as int)),
                mesh.indices@ == scene_indices(i as nat),
            decreases count - i,
        {
            let rect = rects[i];
            let pos = positions[i];
            proof {
                lemma_scene_push(rects@.take(i as int), positions@.take(i as int), stroke, rect, pos);
                assert(rects@.take(i as int).push(rect) == rects@.take(i + 1));
                assert(positions@.take(i as int).push(pos) == positions@.take(i + 1));
            }
            mesh.append(rect.mesh(pos, stroke));
            i = i + 1;
        }
        assert(rects@.take(count as int) == rects@);
        assert(positions@.take(count as int) == positions@);

        Self {
            width: width as i64 * SCALE,
            height: height as i64 * SCALE,
            stroke,
            rects,
            positions,
            velocities,
            mesh,
            active: 0,
            new_count: count,
            count,
        }
    }

    /// Whether `random` accepts these arguments: each canvas side at least
    /// `CELL_DIVISOR` units, so that the range of shape sizes (below the side
    /// divided by `CELL_DIVISOR`) is not empty, a population of 1 to
    /// `COUNT_MAX`, and a border within `COORD_MAX`.
    pub fn can_build(width: u32, height: u32, stroke: i64, count: usize) -> (r: bool)
        ensures
            r == (CELL_DIVISOR <= width && CELL_DIVISOR <= height && 1 <= count <= COUNT_MAX
                && -COORD_MAX <= stroke <= COORD_MAX),
    {
        CELL_DIVISOR <= width && CELL_DIVISOR <= height && 1 <= count && count <= COUNT_MAX
            && -COORD_MAX <= stroke && stroke <= COORD_MAX
    }

    /// Advances every entity by one frame: a velocity component is reversed
    /// where the entity is past that edge of the canvas and still moving
    /// outward, then the position moves by velocity times `DT`, and the
    /// entity's outline in the mesh is rewritten in place.
    pub fn update(&mut self)
        requires
            old(self).wf(),
        ensures
            final(self).wf(),
            final(self).width == old(self).width,
            final(self).height == old(self).height,
            final(self).stroke == old(self).stroke,
            final(self).rects@ == old(self).rects@,
            final(self).count == old(self).count,
            final(self).active == old(self).active,
            final(self).new_count == old(self).new_count,
            forall|i: int|
                0 <= i < old(self).count ==> (#[trigger] final(self).positions@[i],
                final(self).velocities@[i]) == advanced(
                    old(self).positions@[i],
                    old(self).velocities@[i],
                    old(self).width,
                    old(self).height,
                ),
            final(self).mesh.brushes@ == old(self).mesh.brushes@,
            final(self).mesh.indices@ == old(self).mesh.indices@,
    {
        let s = self.stroke;
        let mut i: usize = 0;
        while i < self.rects.len()
            invariant
                self.width == old(self).width,
                self.height == old(self).height,
                self.stroke == s == old(self).stroke,
                self.rects@ == old(self).rects@,
                self.count == old(self).count,
                self.active == old(self).active,
                self.new_count == old(self).new_count,
                self.positions.len() == self.count,
                self.velocities.len() == self.count,
                i <= self.count,
                old(self).wf(),
                forall|k: int|
                    0 <= k < i ==> (#[trigger] self.positions@[k], self.velocities@[k]) == advanced(
                        old(self).positions@[k],
                        old(self).velocities@[k],
                        self.width,
                        self.height,
                    ),
                forall|k: int|
                    i <= k < self.count ==> #[trigger] self.positions@[k] == old(self).positions@[k],
                forall|k: int|
                    i <= k < self.count ==> #[trigger] self.velocities@[k] == old(
                        self,
                    ).velocities@[k],
                forall|k: int|
                    0 <= k < self.count ==> in_motion_bounds(
                        #[trigger] self.positions@[k],
                        self.velocities@[k],
                        self.width,
                        self.height,
                    ),
                self.mesh.wf(),
                self.mesh.points@ == scene_points(self.rects@, self.positions@, s),
                self.mesh.brushes@ == old(self).mesh.brushes@,
                self.mesh.indices@ == old(self).mesh.indices@,
            decreases self.count - i,
        {
            let rect = self.rects[i];
            let mut pos = self.positions[i];
            let mut vel = self.velocities[i];
            if pos.x > self.width && vel.x > 0 || pos.x < 0 && vel.x < 0 {
                vel.x = -vel.x;
            }
            if pos.y > self.height && vel.y > 0 || pos.y < 0 && vel.y < 0 {
                vel.y = -vel.y;
            }

            pos.x = pos.x + vel.x * DT;
            pos.y = pos.y + vel.y * DT;
            proof {
                lemma_motion_bounds(self.positions@[i as int], self.velocities@[i as int], self.width, self.height);
                lemma_scene_refresh(self.rects@, self.positions@, s, i as int, pos);
            }
            self.positions.set(i, pos);
            self.velocities.set(i, vel);

            rect.update(pos, s, i, &mut self.mesh);

            i = i + 1;
        }
    }

    /// Records the population size asked for; no buffer changes.
    pub fn update_count(&mut self, count: usize)
        ensures
            final(self).new_count == count,
            final(self).width == old(self).width,
            final(self).height == old(self).height,
            final(self).stroke == old(self).stroke,
            final(self).rects@ == old(self).rects@,
            final(self).positions@ == old(self).positions@,
            final(self).velocities@ == old(self).velocities@,
            final(self).mesh.points@ == old(self).mesh.points@,
            final(self).mesh.brushes@ == old(self).mesh.brushes@,
            final(self).mesh.indices@ == old(self).mesh.indices@,
            final(self).active == old(self).active,
            final(self).count == old(self).count,
    {
        self.new_count = count;
    }

    /// One shape, position and velocity per entity, each within the motion
    /// bounds, and the mesh holding exactly the entities' outlines in
    /// entity order.
    pub open spec fn wf(&self) -> bool {
        &&& 0 <= self.width <= u32::MAX * SCALE
        &&& 0 <= self.height <= u32::MAX * SCALE
        &&& -COORD_MAX <= self.stroke <= COORD_MAX
        &&& self.count <= COUNT_MAX
        &&& self.rects.len() == self.count
        &&& self.positions.len() == self.count
        &&& self.velocities.len() == self.count
        &&& forall|i: int| 0 <= i < self.count ==> (#[trigger] self.rects@[i]).wf()
        &&& forall|i: int|
            0 <= i < self.count ==> in_motion_bounds(
                #[trigger] self.positions@[i],
                self.velocities@[i],
                self.width,
                self.height,
            )
        &&& self.mesh.wf()
        &&& self.mesh.points@ == scene_points(self.rects@, self.positions@, self.stroke)
        &&& self.mesh.brushes@ == scene_brushes(self.rects@)
        &&& self.mesh.indices@ == scene_indices(self.count as nat)
    }
}

/// Where `k` falls among the blocks of `d` consecutive positions.
proof fn lemma_block(k: int, d: int, i: int)
    requires
        0 < d,
        0 <= k,
    ensures
        i * d <= k < i * d + d ==> k / d == i && k % d == k - i * d,
        k < i * d ==> k / d < i,
{
    if i * d <= k < i * d + d {
        vstd::arithmetic::div_mod::lemma_fundamental_div_mod_converse(k, d, i, k - i * d);
    }
    if k < i * d {
        vstd::arithmetic::div_mod::lemma_fundamental_div_mod(k, d);
        let q = k / d;
        assert(0 <= k % d);
        assert(d * q <= k);
        if q >= i {
            assert(d * q >= d * i) by (nonlinear_arith)
                requires
                    q >= i,
                    d > 0,
            ;
            assert(d * i == i * d) by (nonlinear_arith);
        }
    }
}

/// The scene mesh of one more entity is the old one with that entity's
/// outline, styles and rebased triangles behind it.
proof fn lemma_scene_push(rects: Seq<Rect>, positions: Seq<Point>, stroke: i64, r: Rect, p: Point)
    requires
        rects.len() == positions.len(),
    ensures
        scene_points(rects.push(r), positions.push(p), stroke) == scene_points(
            rects,
            positions,
            stroke,
        ) + r.outline(p, stroke),
        scene_brushes(rects.push(r)) == scene_brushes(rects) + outline_brushes(r.brush),
        scene_indices(rects.len() + 1) == scene_indices(rects.len()) + rebased(
            triangle_pattern(),
            (12 * rects.len()) as nat,
        ),
{
    let n = rects.len() as int;
    let new_points = scene_points(rects.push(r), positions.push(p), stroke);
    let old_points = scene_points(rects, positions, stroke);
    assert forall|k: int| 0 <= k < 12 * (n + 1) implies #[trigger] new_points[k] == (old_points
        + r.outline(p, stroke))[k] by {
        lemma_block(k, 12, n);
    }
    assert(new_points == old_points + r.outline(p, stroke));

    let new_brushes = scene_brushes(rects.push(r));
    let old_brushes = scene_brushes(rects);
    assert forall|k: int| 0 <= k < 12 * (n + 1) implies #[trigger] new_brushes[k] == (old_brushes
        + outline_brushes(r.brush))[k] by {
        lemma_block(k, 12, n);
    }
    assert(new_brushes == old_brushes + outline_brushes(r.brush));

    let new_indices = scene_indices((n + 1) as nat);
    let old_indices = scene_indices(n as nat);
    let tail = rebased(triangle_pattern(), (12 * n) as nat);
    assert forall|k: int| 0 <= k < 30 * (n + 1) implies #[trigger] new_indices[k] == (old_indices
        + tail)[k] by {
        lemma_block(k, 30, n);
    }
    assert(new_indices == old_indices + tail);
}

/// Rewriting the outline of entity `i` in the scene mesh gives the scene
/// mesh of the new position.
proof fn lemma_scene_refresh(rects: Seq<Rect>, positions: Seq<Point>, stroke: i64, i: int, p: Point)
    requires
        rects.len() == positions.len(),
        0 <= i < rects.len(),
    ensures
        refreshed(scene_points(rects, positions, stroke), 12 * i, rects[i].outline(p, stroke))
            == scene_points(rects, positions.update(i, p), stroke),
{
    let lhs = refreshed(scene_points(rects, positions, stroke), 12 * i, rects[i].outline(p, stroke));
    let rhs = scene_points(rects, positions.update(i, p), stroke);
    assert forall|k: int| 0 <= k < 12 * rects.len() implies #[trigger] lhs[k] == rhs[k] by {
        lemma_block(k, 12, i);
        lemma_block(k, 12, i + 1);
    }
    assert(lhs == rhs);
}

/// One frame keeps an entity within the motion bounds.
proof fn lemma_motion_bounds(pos: Point, vel: Point, width: i64, height: i64)
    requires
        0 <= width <= u32::MAX * SCALE,
        0 <= height <= u32::MAX * SCALE,
        in_motion_bounds(pos, vel, width, height),
    ensures
        in_motion_bounds(
            advanced(pos, vel, width, height).0,
            advanced(pos, vel, width, height).1,
            width,
            height,
        ),
{
    let vx = bounced(pos.x, vel.x, width);
    let vy = bounced(pos.y, vel.y, height);
    assert(-VELOCITY_MAX <= vx <= VELOCITY_MAX);
    assert(-VELOCITY_MAX <= vy <= VELOCITY_MAX);
    assert(-STEP_MAX <= pos.x + vx * DT <= width + STEP_MAX);
    assert(-STEP_MAX <= pos.y + vy * DT <= height + STEP_MAX);
}

} // verus!
