use vstd::prelude::*;

verus! {

/// Fixed-point steps per document unit (and per unit of a colour channel or
/// a zoom factor; style directions have a finer scale of their own).
pub const SCALE: i64 = 10_000;

/// A position or a vector in document space, in steps of `1 / SCALE` (a style
/// direction is in steps of `1 / DIRECTION_SCALE`).
#[derive(Clone, Copy, Debug, PartialEq, Eq, Structural)]
pub struct Point {
    pub x: i64,
    pub y: i64,
}

} // verus!
