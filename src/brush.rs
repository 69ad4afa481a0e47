use vstd::prelude::*;

use crate::color::{palette, palette_color, Color};
use crate::point::{Point, SCALE};

verus! {

/// Number of entries in the style table.
pub const MAX_BRUSHES: usize = 16;

/// Fixed-point steps per unit of a direction component: finer than `SCALE`,
/// so that a diagonal is a unit vector to within one part in a million.
pub const DIRECTION_SCALE: i64 = 100_000_000;

/// `1 / sqrt(2)` in steps of `1 / DIRECTION_SCALE`, rounded down.
pub const DIAGONAL: i64 = 70_710_678;

/// Whether `v`, in steps of `1 / DIRECTION_SCALE`, is a unit vector to within
/// one part in a million of its squared length.
pub open spec fn is_unit_direction(v: Point) -> bool {
    let err = v.x * v.x + v.y * v.y - DIRECTION_SCALE * DIRECTION_SCALE;
    -(DIRECTION_SCALE * DIRECTION_SCALE) <= 1_000_000 * err <= DIRECTION_SCALE * DIRECTION_SCALE
}

/// A rendering style: a direction (a unit vector, in steps of
/// `1 / DIRECTION_SCALE`), a half-width (in steps of `1 / SCALE`) and a
/// colour.
#[derive(Clone, Copy, Debug, PartialEq, Eq, Structural)]
pub struct Brush {
    pub width: i64,
    pub vec: Point,
    pub color: Color,
}

/// The direction of style `i`: the two unit diagonals in turn.
pub open spec fn brush_direction(i: int) -> Point {
    if i % 2 == 0 {
        Point { x: DIAGONAL, y: DIAGONAL }
    } else {
        Point { x: DIAGONAL, y: (-DIAGONAL) as i64 }
    }
}

/// Entry `i` of the style table.
pub open spec fn brush_at(i: int) -> Brush {
    Brush { width: SCALE, vec: brush_direction(i), color: palette(i) }
}

/// Both diagonals are unit vectors to within one part in a million.
proof fn lemma_diagonals_are_unit()
    ensures
        forall|i: int| is_unit_direction(#[trigger] brush_direction(i)),
{
    assert(DIAGONAL * DIAGONAL == 4_999_999_983_219_684) by (nonlinear_arith);
    assert((-DIAGONAL) * (-DIAGONAL) == 4_999_999_983_219_684) by (nonlinear_arith);
    assert(DIRECTION_SCALE * DIRECTION_SCALE == 10_000_000_000_000_000) by (nonlinear_arith);
    assert(is_unit_direction(Point { x: DIAGONAL, y: DIAGONAL }));
    assert(is_unit_direction(Point { x: DIAGONAL, y: (-DIAGONAL) as i64 }));
}

impl Brush {
    /// The style table: entry `i` has half-width one unit, the diagonal
    /// direction `brush_direction(i)` and palette colour `i`.
    pub fn create_set() -> (r: [Brush; MAX_BRUSHES])
        ensures
            forall|i: int| 0 <= i < MAX_BRUSHES ==> #[trigger] r@[i] == brush_at(i),
            forall|i: int| 0 <= i < MAX_BRUSHES ==> is_unit_direction(#[trigger] r@[i].vec),
    {
        proof {
            lemma_diagonals_are_unit();
        }
        let blank = Brush {
            width: 0,
            vec: Point { x: 0, y: 0 },
            color: Color { r: 0, g: 0, b: 0 },
        };
        let mut brushes = [blank; MAX_BRUSHES];

        let a = DIAGONAL;
        let vecs = [Point { x: a, y: a }, Point { x: a, y: -a }];

        let mut i: usize = 0;
        while i < MAX_BRUSHES
            invariant
                i <= MAX_BRUSHES,
                vecs@ == seq![Point { x: DIAGONAL, y: DIAGONAL }, Point { x: DIAGONAL, y: (-DIAGONAL) as i64 }],
                forall|k: int| 0 <= k < i ==> #[trigger] brushes@[k] == brush_at(k),
            decreases MAX_BRUSHES - i,
        {
            brushes[i] = Brush { width: SCALE, vec: vecs[i % 2], color: palette_color(i) };
            i = i + 1;
        }
        brushes
    }
}

} // verus!
