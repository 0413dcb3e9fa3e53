use vstd::prelude::*;

verus! {

/// Something that can present the remote display.
pub trait Canvas {
    fn draw(&self);
}

/// A corner of the textured quad that covers the viewport.
///
/// Positions are in half-pixel units around the viewport's centre, so that
/// the corners of a `w` by `h` image sit at `(±w, ±h)`; the shader's
/// position is this divided by two. Texture coordinates are `0` or `1`, with
/// `v` growing downwards in the image while `y` grows upwards.
#[derive(Clone, Copy, PartialEq, Eq, Structural, Debug)]
pub struct QuadVertex {
    pub x_halves: i128,
    pub y_halves: i128,
    pub u: u8,
    pub v: u8,
}

/// The corner at horizontal side `right` and vertical side `top`, for a
/// `w` by `h` image.
pub open spec fn corner(w: u64, h: u64, right: bool, top: bool) -> QuadVertex {
    QuadVertex {
        x_halves: if right { w as i128 } else { (-(w as int)) as i128 },
        y_halves: if top { h as i128 } else { (-(h as int)) as i128 },
        u: if right { 1 } else { 0 },
        v: if top { 0 } else { 1 },
    }
}

/// The two triangles that cover the image: bottom-left, bottom-right,
/// top-right, then bottom-left, top-right, top-left.
pub open spec fn quad_of(w: u64, h: u64) -> Seq<QuadVertex> {
    seq![
        corner(w, h, false, false),
        corner(w, h, true, false),
        corner(w, h, true, true),
        corner(w, h, false, false),
        corner(w, h, true, true),
        corner(w, h, false, true),
    ]
}

fn make_corner(w: u64, h: u64, right: bool, top: bool) -> (c: QuadVertex)
    ensures
        c == corner(w, h, right, top),
{
    let x: i128 = w as i128;
    let y: i128 = h as i128;
    QuadVertex {
        x_halves: if right { x } else { -x },
        y_halves: if top { y } else { -y },
        u: if right { 1 } else { 0 },
        v: if top { 0 } else { 1 },
    }
}

/// The six vertices of the quad on which a `w` by `h` image is drawn.
pub fn vertices(w: u64, h: u64) -> (vs: [QuadVertex; 6])
    ensures
        vs@ == quad_of(w, h),
{
    let vs = [
        make_corner(w, h, false, false),
        make_corner(w, h, true, false),
        make_corner(w, h, true, true),
        make_corner(w, h, false, false),
        make_corner(w, h, true, true),
        make_corner(w, h, false, true),
    ];
    assert(vs@ =~= quad_of(w, h));
    vs
}

/// Twice the signed area of the triangle `a, b, c`, in half-pixel units
/// squared; positive when the triangle winds counter-clockwise.
pub open spec fn doubled_area(a: QuadVertex, b: QuadVertex, c: QuadVertex) -> int {
    (b.x_halves - a.x_halves) * (c.y_halves - a.y_halves) - (b.y_halves - a.y_halves) * (c.x_halves - a.x_halves)
}

/// For a non-empty image: each vertex samples the texture at the corner that
/// matches its position (left edge at `u = 0`, top edge at `v = 0`); the two
/// triangles share the diagonal from bottom-left to top-right; and both wind
/// counter-clockwise, each covering half of the `w` by `h` image.
pub proof fn lemma_quad_covers_image(w: u64, h: u64)
    requires
        w > 0,
        h > 0,
    ensures
        forall|i: int|
            0 <= i < 6 ==> {
                let q = #[trigger] quad_of(w, h)[i];
                &&& (q.u == 1) == (q.x_halves > 0)
                &&& (q.v == 1) == (q.y_halves < 0)
                &&& q.x_halves == w || q.x_halves == -w
                &&& q.y_halves == h || q.y_halves == -h
            },
        quad_of(w, h)[0] == quad_of(w, h)[3],
        quad_of(w, h)[2] == quad_of(w, h)[4],
        doubled_area(quad_of(w, h)[0], quad_of(w, h)[1], quad_of(w, h)[2]) == 4 * w * h,
        doubled_area(quad_of(w, h)[3], quad_of(w, h)[4], quad_of(w, h)[5]) == 4 * w * h,
{
    let q = quad_of(w, h);
    let wi = w as int;
    let hi = h as int;
    assert(q[0].x_halves == -wi && q[0].y_halves == -hi);
    assert(q[1].x_halves == wi && q[1].y_halves == -hi);
    assert(q[2].x_halves == wi && q[2].y_halves == hi);
    assert(q[5].x_halves == -wi && q[5].y_halves == hi);
    assert((2 * wi) * (2 * hi) - 0 * (2 * wi) == 4 * wi * hi) by (nonlinear_arith);
    assert((2 * wi) * (2 * hi) - (2 * hi) * 0 == 4 * wi * hi) by (nonlinear_arith);
}

/// The vertex record that the shader reads: two floats of position and two
/// floats of texture coordinate, each float given by its bit pattern, in
/// the order in which they lie in memory.
#[derive(Clone, Copy, PartialEq, Eq, Debug)]
pub struct TexturedVertex {
    pub position: [u32; 2],
    pub texture_coord: [u32; 2],
}

/// Builds the vertex record from the bit patterns of its two float pairs.
pub fn textured_vertex(position: [u32; 2], texture_coord: [u32; 2]) -> (v: TexturedVertex)
    ensures
        v.position == position,
        v.texture_coord == texture_coord,
{
    TexturedVertex { position, texture_coord }
}

/// The bit pattern of the single-precision float `0.0`.
pub const FLOAT_ZERO_BITS: u32 = 0;

/// The bit pattern of the single-precision float `1.0`: sign 0, biased
/// exponent 127, mantissa 0.
pub const FLOAT_ONE_BITS: u32 = 0x3f80_0000;

/// The bit pattern of a texture coordinate: `0.0` for `0`, `1.0` otherwise.
pub open spec fn coord_bits_of(c: u8) -> u32 {
    if c == 0 { FLOAT_ZERO_BITS } else { FLOAT_ONE_BITS }
}

/// Texture coordinate 0 is the float `0.0`, whose bits are all zero, and
/// every other coordinate is `1.0`, whose bits are `0x3f80_0000`.
pub proof fn lemma_coord_bits(c: u8)
    ensures
        coord_bits_of(0) == 0u32,
        c != 0 ==> coord_bits_of(c) == 0x3f80_0000u32,
{
}

/// Gives the float bit patterns of a vertex's texture coordinates.
pub fn texture_coord_bits(q: &QuadVertex) -> (bits: [u32; 2])
    ensures
        bits[0] == coord_bits_of(q.u),
        bits[1] == coord_bits_of(q.v),
{
    let u: u32 = if q.u == 0 { FLOAT_ZERO_BITS } else { FLOAT_ONE_BITS };
    let v: u32 = if q.v == 0 { FLOAT_ZERO_BITS } else { FLOAT_ONE_BITS };
    [u, v]
}

/// The viewport size that the shader receives: each side cast to `u32`.
pub open spec fn viewport_of(width: u64, height: u64) -> (u32, u32) {
    (width as u32, height as u32)
}

/// The viewport size for a `width` by `height` image.
pub fn viewport_size(width: u64, height: u64) -> (size: (u32, u32))
    ensures
        size == viewport_of(width, height),
{
    (width as u32, height as u32)
}

/// What goes into the viewport buffer: the width and height as two 32-bit
/// words, `byte_count` bytes in all, which is also the range marked as
/// modified.
#[derive(Clone, Copy, PartialEq, Eq, Debug)]
pub struct ViewportUpload {
    pub words: [u32; 2],
    pub byte_count: usize,
}

/// The viewport buffer's contents for a viewport size.
pub fn viewport_upload(size: (u32, u32)) -> (up: ViewportUpload)
    ensures
        up.words[0] == size.0,
        up.words[1] == size.1,
        up.byte_count == 8,
{
    let words: [u32; 2] = [size.0, size.1];
    ViewportUpload { words, byte_count: 2 * 4 }
}

/// Where and how a frame's pixels go into the texture: the length of the
/// pixel data, the rows' stride, and the region `(0, 0, 0)` to
/// `(width, height, 1)`.
#[derive(Clone, Copy, PartialEq, Eq, Structural, Debug)]
pub struct TextureUpload {
    pub byte_len: usize,
    pub bytes_per_row: u64,
    pub width: u64,
    pub height: u64,
    pub depth: u64,
}

/// The upload of a `width` by `height` image whose rows are `stride` bytes
/// apart: `stride * height` bytes into a region one deep.
pub fn texture_upload(stride: u64, height: u64, width: u64) -> (t: TextureUpload)
    requires
        stride * height <= u64::MAX,
    ensures
        t.byte_len == (stride * height) as usize,
        t.bytes_per_row == stride,
        t.width == width,
        t.height == height,
        t.depth == 1,
{
    let len: u64 = stride * height;
    TextureUpload { byte_len: len as usize, bytes_per_row: stride, width, height, depth: 1 }
}

} // verus!
