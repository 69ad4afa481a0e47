use vstd::prelude::*;

use crate::point::{Point, SCALE};

verus! {

/// Largest zoom factor, in steps of `1 / SCALE`.
pub const ZOOM_MAX: i64 = 0x1_0000_0000;

/// Largest magnitude of a pan coordinate, in steps.
pub const PAN_MAX: i64 = 0x8000_0000_0000;

/// Largest document side, in steps.
pub const DOC_MAX: i64 = 0x4000_0000_0000;

/// The camera: viewport size in pixels, pan position (the document point
/// shown at the centre), zoom factor in steps of `1 / SCALE`, and whether
/// any of them changed since the projection was last taken.
#[derive(Clone, Copy, Debug, PartialEq, Eq, Structural)]
pub struct Screen {
    pub width: u32,
    pub height: u32,
    pub pos: Point,
    pub scale: i64,
    pub is_modified: bool,
}

/// A column-major 4x4 orthographic matrix with exact rational entries: entry
/// `k` is `num[k] / den`, and `den` is positive.
#[derive(Clone, Copy, Debug)]
pub struct Projection {
    pub num: [i128; 16],
    pub den: i128,
}

/// Cameras and documents whose projection fits in `i128`.
pub open spec fn valid_view(screen: Screen, doc_width: i64, doc_height: i64) -> bool {
    &&& 0 < screen.height
    &&& 0 < screen.scale <= ZOOM_MAX
    &&& -PAN_MAX <= screen.pos.x <= PAN_MAX
    &&& -PAN_MAX <= screen.pos.y <= PAN_MAX
    &&& 0 < doc_width <= DOC_MAX
    &&& 0 < doc_height <= DOC_MAX
}

/// Common denominator of the projection: the visible width
/// `height * (doc_width / doc_height) / zoom` and height `height / zoom`
/// brought to whole steps.
pub open spec fn projection_den(screen: Screen, doc_width: i64, doc_height: i64) -> int {
    screen.height * doc_width * SCALE * SCALE
}

/// Numerators of the projection over `projection_den`: with the visible
/// rectangle `left..right` by `top..bottom` centred on the pan position,
/// `2 / (right - left)` and `2 / (top - bottom)` on the diagonal, `-1`
/// for depth, and the translation `-(right + left) / (right - left)`,
/// `-(top + bottom) / (top - bottom)` in the last column.
pub open spec fn projection_num(screen: Screen, doc_width: i64, doc_height: i64) -> Seq<int> {
    let d = projection_den(screen, doc_width, doc_height);
    let z = screen.scale as int;
    seq![
        2 * doc_height * z * SCALE, 0, 0, 0,
        0, -2 * z * doc_width * SCALE, 0, 0,
        0, 0, -d, 0,
        -2 * screen.pos.x * doc_height * z, 2 * screen.pos.y * z * doc_width, 0, d,
    ]
}

/// Numerators of the clip coordinates of document point `p` under `m`
/// (the first two rows applied to `(p.x / SCALE, p.y / SCALE, 0, 1)`); the
/// coordinates are these divided by `SCALE * m.den`.
pub open spec fn clip_numerators(m: Projection, p: Point) -> (int, int) {
    (
        m.num@[0] * p.x + m.num@[4] * p.y + m.num@[12] * SCALE,
        m.num@[1] * p.x + m.num@[5] * p.y + m.num@[13] * SCALE,
    )
}

/// `|a * b| <= bound_a * bound_b` for `|a| <= bound_a` and `0 <= b <= bound_b`.
proof fn lemma_mul_bound(a: int, b: int, bound_a: int, bound_b: int)
    requires
        -bound_a <= a <= bound_a,
        0 <= b <= bound_b,
    ensures
        -(bound_a * bound_b) <= a * b <= bound_a * bound_b,
{
    assert(-(bound_a * bound_b) <= a * b <= bound_a * bound_b) by (nonlinear_arith)
        requires
            -bound_a <= a <= bound_a,
            0 <= b <= bound_b,
    ;
}

/// The orthographic projection of the camera for a document of
/// `doc_width` by `doc_height` steps: the pan position goes to the clip
/// origin, and document y grows downward on screen.
pub fn create_orthographic_matrix_with_camera(screen: &Screen, doc_width: i64, doc_height: i64) -> (r:
    Projection)
    requires
        valid_view(*screen, doc_width, doc_height),
    ensures
        r.den == projection_den(*screen, doc_width, doc_height),
        r.den > 0,
        r.num@.map_values(|v: i128| v as int) == projection_num(*screen, doc_width, doc_height),
{
    let vh = screen.height as i128;
    let z = screen.scale as i128;
    let dw = doc_width as i128;
    let dh = doc_height as i128;
    let px = screen.pos.x as i128;
    let py = screen.pos.y as i128;
    let s = SCALE as i128;

    proof {
        lemma_mul_bound(vh as int, dw as int, 0x1_0000_0000, DOC_MAX as int);
        lemma_mul_bound((vh * dw) as int, s as int, 0x1_0000_0000 * DOC_MAX, SCALE as int);
        lemma_mul_bound((vh * dw * s) as int, s as int, 0x1_0000_0000 * DOC_MAX * SCALE, SCALE as int);
        lemma_mul_bound(2 * dh as int, z as int, 2 * DOC_MAX, ZOOM_MAX as int);
        lemma_mul_bound((2 * dh * z) as int, s as int, 2 * DOC_MAX * ZOOM_MAX, SCALE as int);
        lemma_mul_bound(-2 * z as int, dw as int, 2 * ZOOM_MAX, DOC_MAX as int);
        lemma_mul_bound((-2 * z * dw) as int, s as int, 2 * ZOOM_MAX * DOC_MAX, SCALE as int);
        lemma_mul_bound(-2 * px as int, dh as int, 2 * PAN_MAX, DOC_MAX as int);
        lemma_mul_bound((-2 * px * dh) as int, z as int, 2 * PAN_MAX * DOC_MAX, ZOOM_MAX as int);
        lemma_mul_bound(2 * py as int, z as int, 2 * PAN_MAX, ZOOM_MAX as int);
        lemma_mul_bound((2 * py * z) as int, dw as int, 2 * PAN_MAX * ZOOM_MAX, DOC_MAX as int);
        assert(0 < vh * dw * s * s) by (nonlinear_arith)
            requires
                0 < vh,
                0 < dw,
                0 < s,
        ;
    }
    let d = vh * dw * s * s;
    let m0 = 2 * dh * z * s;
    let m5 = -2 * z * dw * s;
    let m12 = -2 * px * dh * z;
    let m13 = 2 * py * z * dw;

    let num = [m0, 0, 0, 0, 0, m5, 0, 0, 0, 0, -d, 0, m12, m13, 0, d];
    assert(num@.map_values(|v: i128| v as int) == projection_num(*screen, doc_width, doc_height));
    Projection { num, den: d }
}

impl Screen {
    /// The camera of a new viewport of `width` by `height` pixels: panned to
    /// its centre, zoom one, and due for a projection.
    pub fn new(width: u32, height: u32) -> (r: Self)
        ensures
            r.width == width,
            r.height == height,
            r.pos.x == width * SCALE / 2,
            r.pos.y == height * SCALE / 2,
            r.scale == SCALE,
            r.is_modified,
    {
        Screen {
            width,
            height,
            pos: Point { x: width as i64 * SCALE / 2, y: height as i64 * SCALE / 2 },
            scale: SCALE,
            is_modified: true,
        }
    }

    /// Whether the projection of this camera for a document of `doc_width`
    /// by `doc_height` steps can be computed.
    pub fn can_project(&self, doc_width: i64, doc_height: i64) -> (r: bool)
        ensures
            r == valid_view(*self, doc_width, doc_height),
    {
        0 < self.height && 0 < self.scale && self.scale <= ZOOM_MAX && -PAN_MAX <= self.pos.x
            && self.pos.x <= PAN_MAX && -PAN_MAX <= self.pos.y && self.pos.y <= PAN_MAX
            && 0 < doc_width && doc_width <= DOC_MAX && 0 < doc_height && doc_height <= DOC_MAX
    }

    /// Sets the viewport size and marks the projection stale.
    pub fn update_size(&mut self, width: u32, height: u32)
        ensures
            *final(self) == (Screen { width, height, is_modified: true, ..*old(self) }),
    {
        self.width = width;
        self.height = height;
        self.is_modified = true;
    }

    /// Sets the zoom factor and marks the projection stale.
    pub fn update_scale(&mut self, scale: i64)
        ensures
            *final(self) == (Screen { scale, is_modified: true, ..*old(self) }),
    {
        self.scale = scale;
        self.is_modified = true;
    }

    /// Sets the pan position and marks the projection stale.
    pub fn update_pos(&mut self, pos: Point)
        ensures
            *final(self) == (Screen { pos, is_modified: true, ..*old(self) }),
    {
        self.pos = pos;
        self.is_modified = true;
    }

    /// The projection for a document of `doc_width` by `doc_height` steps
    /// if the camera changed since it was last taken, and then clears the
    /// mark; `None`, with nothing changed, otherwise.
    pub fn projection_matrix_if_dirty(&mut self, doc_width: i64, doc_height: i64) -> (r: Option<
        Projection,
    >)
        requires
            valid_view(*old(self), doc_width, doc_height),
        ensures
            old(self).is_modified ==> {
                &&& *final(self) == (Screen { is_modified: false, ..*old(self) })
                &&& r matches Some(m) && m.den == projection_den(*old(self), doc_width, doc_height)
                    && m.num@.map_values(|v: i128| v as int) == projection_num(
                    *old(self),
                    doc_width,
                    doc_height,
                )
            },
            !old(self).is_modified ==> *final(self) == *old(self) && r is None,
    {
        if !self.is_modified {
            return None;
        }
        self.is_modified = false;
        Some(create_orthographic_matrix_with_camera(self, doc_width, doc_height))
    }
}

/// The pan position is the centre of the view: the projection takes it to
/// the clip-space origin.
pub proof fn lemma_pan_maps_to_origin(screen: Screen, doc_width: i64, doc_height: i64, m: Projection)
    requires
        m.den == projection_den(screen, doc_width, doc_height),
        m.num@.map_values(|v: i128| v as int) == projection_num(screen, doc_width, doc_height),
    ensures
        clip_numerators(m, screen.pos) == (0int, 0int),
        m.num@[15] == m.den,
{
    let n = projection_num(screen, doc_width, doc_height);
    assert(m.num@[1] as int == n[1]);
    assert(m.num@[4] as int == n[4]);
    assert(m.num@[15] as int == n[15]);
    assert(m.num@[0] as int == n[0]);
    assert(m.num@[5] as int == n[5]);
    assert(m.num@[12] as int == n[12]);
    assert(m.num@[13] as int == n[13]);
    let (x, y, dw, dh, z) = (
        screen.pos.x as int,
        screen.pos.y as int,
        doc_width as int,
        doc_height as int,
        screen.scale as int,
    );
    assert((2 * dh * z * SCALE) * x + (-2 * x * dh * z) * SCALE == 0) by (nonlinear_arith);
    assert((-2 * z * dw * SCALE) * y + (2 * y * z * dw) * SCALE == 0) by (nonlinear_arith);
    assert(n[4] == 0 && n[1] == 0);
    assert(m.num@[4] == 0 && m.num@[1] == 0);
    assert(m.num@[4] * y == 0);
    assert(m.num@[1] * x == 0);
    assert(m.num@[0] * x + m.num@[12] * SCALE == 0);
    assert(m.num@[5] * y + m.num@[13] * SCALE == 0);
}

} // verus!
