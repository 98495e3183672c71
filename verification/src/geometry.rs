//! Quad geometry: turning one sprite's parameters into four transformed
//! vertices with texture coordinates.
//!
//! The transform order is fixed: each corner of the source rectangle is
//! taken relative to the origin, scaled, rotated (counter-clockwise
//! positive), then translated to the sprite's position.  A flip permutes
//! only the UV assignment across the four corners; it never moves a vertex.
//! All values are 16.16 fixed point (`fx::FX_ONE` is one unit).

use vstd::prelude::*;

use crate::fx::fx_div;
use crate::fx::fx_mul;
use crate::fx::fx_mul_spec;
use crate::fx::lemma_fx_mul_one;
use crate::fx::lemma_fx_mul_zero;
use crate::fx::lemma_mul_bounds;
use crate::fx::lemma_tdiv_multiple;
use crate::fx::lemma_tdiv_quotient_bound;
use crate::fx::tdiv;
use crate::fx::FX_ONE;
use vstd::arithmetic::div_mod::lemma_div_basics;

verus! {

/// Largest texture side length the geometry accepts, in pixels.
pub const TEX_DIM_MAX: u32 = 0x80000;

/// Largest coordinate magnitude (fixed point) the geometry accepts.
pub const COORD_MAX: i64 = 0x8_0000_0000;

/// Largest scale-factor magnitude (fixed point) the geometry accepts.
pub const SCALE_MAX: i64 = 0x400_0000;

/// A point or extent in the plane, 16.16 fixed point.
#[derive(Debug, Clone, Copy, PartialEq, Eq, Structural)]
pub struct Vector2 {
    pub x: i64,
    pub y: i64,
}

/// An axis-aligned rectangle, 16.16 fixed point, given by its top-left
/// corner and its extent.
#[derive(Debug, Clone, Copy, PartialEq, Eq, Structural)]
pub struct Rectangle {
    pub x: i64,
    pub y: i64,
    pub w: i64,
    pub h: i64,
}

/// A rotation, given by the fixed-point cosine and sine of the angle
/// (counter-clockwise positive).  The trigonometry itself is the caller's
/// business; the geometry only applies the pair.
#[derive(Debug, Clone, Copy, PartialEq, Eq, Structural)]
pub struct Rotation {
    pub cos: i64,
    pub sin: i64,
}

/// An RGBA tint; each channel is fixed point, one unit meaning full
/// intensity.  This layer carries colors through without clamping them.
#[derive(Debug, Clone, Copy, PartialEq, Eq, Structural)]
pub struct Color {
    pub r: i64,
    pub g: i64,
    pub b: i64,
    pub a: i64,
}

/// A four-component vector, the shape the backend takes a color in.
#[derive(Debug, Clone, Copy, PartialEq, Eq, Structural)]
pub struct Vector4 {
    pub x: i64,
    pub y: i64,
    pub z: i64,
    pub w: i64,
}

impl From<Color> for Vector4 {
    /// The color's channels in backend component order.
    fn from(color: Color) -> (r: Vector4) {
        Vector4 { x: color.r, y: color.g, z: color.b, w: color.a }
    }
}

impl vstd::std_specs::convert::FromSpecImpl<Color> for Vector4 {
    open spec fn obeys_from_spec() -> bool {
        true
    }

    open spec fn from_spec(color: Color) -> Vector4 {
        Vector4 { x: color.r, y: color.g, z: color.b, w: color.a }
    }
}

impl From<Vector4> for Color {
    /// The vector's components read back as color channels.
    fn from(v: Vector4) -> (r: Color) {
        Color { r: v.x, g: v.y, b: v.z, a: v.w }
    }
}

impl vstd::std_specs::convert::FromSpecImpl<Vector4> for Color {
    open spec fn obeys_from_spec() -> bool {
        true
    }

    open spec fn from_spec(v: Vector4) -> Color {
        Color { r: v.x, g: v.y, b: v.z, a: v.w }
    }
}

/// One quad corner: a transformed position, a texture coordinate and a tint.
#[derive(Debug, Clone, Copy, PartialEq, Eq, Structural)]
pub struct Vertex {
    pub x: i64,
    pub y: i64,
    pub u: i64,
    pub v: i64,
    pub color: Color,
}

/// Four vertices in fixed order: top-left, top-right, bottom-right,
/// bottom-left.  Immutable once built.
#[derive(Debug, Clone, Copy, PartialEq, Eq, Structural)]
pub struct Quad {
    pub tl: Vertex,
    pub tr: Vertex,
    pub br: Vertex,
    pub bl: Vertex,
}

/// Which mirroring to apply to the UV assignment.
#[derive(Debug, Clone, Copy, PartialEq, Eq, Structural)]
pub enum SpriteFlip {
    FlipNone,
    FlipH,
    FlipV,
    Both,
}

/// The effective origin: the given one, or the sprite's top-left corner.
pub open spec fn origin_of(origin: Option<Vector2>) -> Vector2 {
    match origin {
        Option::Some(o) => o,
        Option::None => Vector2 { x: 0, y: 0 },
    }
}

/// The effective scale: the given one, or one unit on both axes.
pub open spec fn scale_of(scale: Option<Vector2>) -> Vector2 {
    match scale {
        Option::Some(s) => s,
        Option::None => Vector2 { x: FX_ONE, y: FX_ONE },
    }
}

/// Left edge of the effective source rectangle (defaults to the full
/// texture extent).
pub open spec fn rect_x0(src: Option<Rectangle>) -> int {
    match src {
        Option::Some(r) => r.x as int,
        Option::None => 0,
    }
}

/// Top edge of the effective source rectangle.
pub open spec fn rect_y0(src: Option<Rectangle>) -> int {
    match src {
        Option::Some(r) => r.y as int,
        Option::None => 0,
    }
}

/// Right edge of the effective source rectangle.
pub open spec fn rect_x1(src: Option<Rectangle>, tex_width: u32) -> int {
    match src {
        Option::Some(r) => r.x + r.w,
        Option::None => (tex_width as int) * (FX_ONE as int),
    }
}

/// Bottom edge of the effective source rectangle.
pub open spec fn rect_y1(src: Option<Rectangle>, tex_height: u32) -> int {
    match src {
        Option::Some(r) => r.y + r.h,
        Option::None => (tex_height as int) * (FX_ONE as int),
    }
}

/// Where a source-rectangle corner lands: taken relative to the origin,
/// scaled, rotated counter-clockwise, then translated to the position.
pub open spec fn world_x(px: int, rot: Rotation, sc: Vector2, org: Vector2, cx: int, cy: int) -> int {
    px + fx_mul_spec(rot.cos as int, fx_mul_spec(sc.x as int, cx - org.x)) - fx_mul_spec(
        rot.sin as int,
        fx_mul_spec(sc.y as int, cy - org.y),
    )
}

/// The vertical mate of `world_x`.
pub open spec fn world_y(py: int, rot: Rotation, sc: Vector2, org: Vector2, cx: int, cy: int) -> int {
    py + fx_mul_spec(rot.sin as int, fx_mul_spec(sc.x as int, cx - org.x)) + fx_mul_spec(
        rot.cos as int,
        fx_mul_spec(sc.y as int, cy - org.y),
    )
}

/// A texture coordinate: the fixed-point fraction of the texture's extent.
pub open spec fn uv_of(coord: int, dim: u32) -> int {
    tdiv(coord, dim as int)
}

/// Whether this flip mirrors the U axis.
pub open spec fn flips_h(f: SpriteFlip) -> bool {
    f == SpriteFlip::FlipH || f == SpriteFlip::Both
}

/// Whether this flip mirrors the V axis.
pub open spec fn flips_v(f: SpriteFlip) -> bool {
    f == SpriteFlip::FlipV || f == SpriteFlip::Both
}

/// The texture coordinate assigned to the near edge: the far one when the
/// axis is mirrored.
pub open spec fn uv_near(mirrored: bool, lo: int, hi: int) -> int {
    if mirrored {
        hi
    } else {
        lo
    }
}

/// The texture coordinate assigned to the far edge: the near one when the
/// axis is mirrored.
pub open spec fn uv_far(mirrored: bool, lo: int, hi: int) -> int {
    if mirrored {
        lo
    } else {
        hi
    }
}

/// The flip that results from applying one extra horizontal mirroring.
pub open spec fn flip_h_then(f: SpriteFlip) -> SpriteFlip {
    match f {
        SpriteFlip::FlipNone => SpriteFlip::FlipH,
        SpriteFlip::FlipH => SpriteFlip::FlipNone,
        SpriteFlip::FlipV => SpriteFlip::Both,
        SpriteFlip::Both => SpriteFlip::FlipV,
    }
}

/// The flip that results from applying one extra vertical mirroring.
pub open spec fn flip_v_then(f: SpriteFlip) -> SpriteFlip {
    match f {
        SpriteFlip::FlipNone => SpriteFlip::FlipV,
        SpriteFlip::FlipV => SpriteFlip::FlipNone,
        SpriteFlip::FlipH => SpriteFlip::Both,
        SpriteFlip::Both => SpriteFlip::FlipH,
    }
}

/// A coordinate the geometry accepts.
pub open spec fn coord_ok(v: int) -> bool {
    -(COORD_MAX as int) <= v <= COORD_MAX as int
}

/// A point whose coordinates the geometry accepts.
pub open spec fn vec_coord_ok(v: Vector2) -> bool {
    coord_ok(v.x as int) && coord_ok(v.y as int)
}

/// A scale the geometry accepts.
pub open spec fn scale_ok(v: Vector2) -> bool {
    -(SCALE_MAX as int) <= v.x <= SCALE_MAX as int && -(SCALE_MAX as int) <= v.y
        <= SCALE_MAX as int
}

/// A rotation pair of at most one unit of magnitude per component, as any
/// cosine/sine pair is.
pub open spec fn rot_ok(r: Rotation) -> bool {
    -(FX_ONE as int) <= r.cos <= FX_ONE as int && -(FX_ONE as int) <= r.sin <= FX_ONE as int
}

/// A source rectangle whose corners the geometry accepts.
pub open spec fn rect_ok(src: Option<Rectangle>) -> bool {
    match src {
        Option::Some(r) => coord_ok(r.x as int) && coord_ok(r.y as int) && coord_ok(r.x + r.w)
            && coord_ok(r.y + r.h),
        Option::None => true,
    }
}

/// Texture dimensions the geometry accepts.
pub open spec fn tex_dims_ok(tex_width: u32, tex_height: u32) -> bool {
    0 < tex_width <= TEX_DIM_MAX && 0 < tex_height <= TEX_DIM_MAX
}

/// Everything `build_quad` requires of its arguments: machine bounds that
/// keep every intermediate product within the word size.
pub open spec fn quad_args_ok(
    tex_width: u32,
    tex_height: u32,
    position: Vector2,
    src: Option<Rectangle>,
    rot: Rotation,
    origin: Option<Vector2>,
    scale: Option<Vector2>,
) -> bool {
    &&& tex_dims_ok(tex_width, tex_height)
    &&& vec_coord_ok(position)
    &&& rect_ok(src)
    &&& rot_ok(rot)
    &&& vec_coord_ok(origin_of(origin))
    &&& scale_ok(scale_of(scale))
}

/// The complete statement of what `build_quad` returns: each vertex's
/// position from the fixed transform order, each UV from the flip-permuted
/// corners of the source rectangle in texture space, and the tint on all
/// four corners.
pub open spec fn quad_built(
    q: Quad,
    tex_width: u32,
    tex_height: u32,
    position: Vector2,
    src: Option<Rectangle>,
    rot: Rotation,
    origin: Option<Vector2>,
    scale: Option<Vector2>,
    color: Color,
    flip: SpriteFlip,
) -> bool {
    let sc = scale_of(scale);
    let org = origin_of(origin);
    let x0 = rect_x0(src);
    let y0 = rect_y0(src);
    let x1 = rect_x1(src, tex_width);
    let y1 = rect_y1(src, tex_height);
    let u0 = uv_of(x0, tex_width);
    let u1 = uv_of(x1, tex_width);
    let v0 = uv_of(y0, tex_height);
    let v1 = uv_of(y1, tex_height);
    let h = flips_h(flip);
    let v = flips_v(flip);
    &&& q.tl.x == world_x(position.x as int, rot, sc, org, x0, y0)
    &&& q.tl.y == world_y(position.y as int, rot, sc, org, x0, y0)
    &&& q.tr.x == world_x(position.x as int, rot, sc, org, x1, y0)
    &&& q.tr.y == world_y(position.y as int, rot, sc, org, x1, y0)
    &&& q.br.x == world_x(position.x as int, rot, sc, org, x1, y1)
    &&& q.br.y == world_y(position.y as int, rot, sc, org, x1, y1)
    &&& q.bl.x == world_x(position.x as int, rot, sc, org, x0, y1)
    &&& q.bl.y == world_y(position.y as int, rot, sc, org, x0, y1)
    &&& q.tl.u == uv_near(h, u0, u1)
    &&& q.tr.u == uv_far(h, u0, u1)
    &&& q.br.u == uv_far(h, u0, u1)
    &&& q.bl.u == uv_near(h, u0, u1)
    &&& q.tl.v == uv_near(v, v0, v1)
    &&& q.tr.v == uv_near(v, v0, v1)
    &&& q.br.v == uv_far(v, v0, v1)
    &&& q.bl.v == uv_far(v, v0, v1)
    &&& q.tl.color == color
    &&& q.tr.color == color
    &&& q.br.color == color
    &&& q.bl.color == color
}

/// Applies the fixed transform order to one source-rectangle corner.
fn transform_corner(position: Vector2, rot: Rotation, sc: Vector2, org: Vector2, cx: i64, cy: i64) -> (r: (
    i64,
    i64,
))
    requires
        vec_coord_ok(position),
        rot_ok(rot),
        scale_ok(sc),
        vec_coord_ok(org),
        coord_ok(cx as int),
        coord_ok(cy as int),
    ensures
        r.0 == world_x(position.x as int, rot, sc, org, cx as int, cy as int),
        r.1 == world_y(position.y as int, rot, sc, org, cx as int, cy as int),
{
    let dx = cx - org.x;
    let dy = cy - org.y;
    proof {
        lemma_mul_bounds(sc.x as int, dx as int, SCALE_MAX as int, 0x10_0000_0000);
        lemma_mul_bounds(sc.y as int, dy as int, SCALE_MAX as int, 0x10_0000_0000);
    }
    let qx = fx_mul(sc.x, dx);
    let qy = fx_mul(sc.y, dy);
    proof {
        lemma_tdiv_quotient_bound(
            (sc.x as int) * (dx as int),
            FX_ONE as int,
            0x4000_0000_0000_0000,
        );
        lemma_tdiv_quotient_bound(
            (sc.y as int) * (dy as int),
            FX_ONE as int,
            0x4000_0000_0000_0000,
        );
        lemma_mul_bounds(rot.cos as int, qx as int, FX_ONE as int, 0x4000_0000_0000);
        lemma_mul_bounds(rot.sin as int, qy as int, FX_ONE as int, 0x4000_0000_0000);
        lemma_mul_bounds(rot.sin as int, qx as int, FX_ONE as int, 0x4000_0000_0000);
        lemma_mul_bounds(rot.cos as int, qy as int, FX_ONE as int, 0x4000_0000_0000);
    }
    let cqx = fx_mul(rot.cos, qx);
    let sqy = fx_mul(rot.sin, qy);
    let sqx = fx_mul(rot.sin, qx);
    let cqy = fx_mul(rot.cos, qy);
    proof {
        lemma_tdiv_quotient_bound(
            (rot.cos as int) * (qx as int),
            FX_ONE as int,
            0x4000_0000_0000_0000,
        );
        lemma_tdiv_quotient_bound(
            (rot.sin as int) * (qy as int),
            FX_ONE as int,
            0x4000_0000_0000_0000,
        );
        lemma_tdiv_quotient_bound(
            (rot.sin as int) * (qx as int),
            FX_ONE as int,
            0x4000_0000_0000_0000,
        );
        lemma_tdiv_quotient_bound(
            (rot.cos as int) * (qy as int),
            FX_ONE as int,
            0x4000_0000_0000_0000,
        );
    }
    (position.x + (cqx - sqy), position.y + (sqx + cqy))
}

/// Builds the quad for one sprite: `src` defaults to the full texture
/// extent, `origin` to the sprite's top-left corner, `scale` to one unit.
/// Malformed magnitudes within the stated machine bounds pass through
/// unchanged; this is pure computation and cannot fail.
pub fn build_quad(
    tex_width: u32,
    tex_height: u32,
    position: Vector2,
    src: Option<Rectangle>,
    rot: Rotation,
    origin: Option<Vector2>,
    scale: Option<Vector2>,
    color: Color,
    flip: SpriteFlip,
) -> (q: Quad)
    requires
        quad_args_ok(tex_width, tex_height, position, src, rot, origin, scale),
    ensures
        quad_built(q, tex_width, tex_height, position, src, rot, origin, scale, color, flip),
{
    let org = match origin {
        Option::Some(o) => o,
        Option::None => Vector2 { x: 0, y: 0 },
    };
    let sc = match scale {
        Option::Some(s) => s,
        Option::None => Vector2 { x: FX_ONE, y: FX_ONE },
    };
    let (x0, y0, x1, y1): (i64, i64, i64, i64) = match src {
        Option::Some(r) => (r.x, r.y, r.x + r.w, r.y + r.h),
        Option::None => (0, 0, (tex_width as i64) * FX_ONE, (tex_height as i64) * FX_ONE),
    };
    let u0 = fx_div(x0, tex_width as i64);
    let u1 = fx_div(x1, tex_width as i64);
    let v0 = fx_div(y0, tex_height as i64);
    let v1 = fx_div(y1, tex_height as i64);
    let (fu0, fu1): (i64, i64) = match flip {
        SpriteFlip::FlipH | SpriteFlip::Both => (u1, u0),
        _ => (u0, u1),
    };
    let (fv0, fv1): (i64, i64) = match flip {
        SpriteFlip::FlipV | SpriteFlip::Both => (v1, v0),
        _ => (v0, v1),
    };
    let (tlx, tly) = transform_corner(position, rot, sc, org, x0, y0);
    let (trx, try_) = transform_corner(position, rot, sc, org, x1, y0);
    let (brx, bry) = transform_corner(position, rot, sc, org, x1, y1);
    let (blx, bly) = transform_corner(position, rot, sc, org, x0, y1);
    Quad {
        tl: Vertex { x: tlx, y: tly, u: fu0, v: fv0, color },
        tr: Vertex { x: trx, y: try_, u: fu1, v: fv0, color },
        br: Vertex { x: brx, y: bry, u: fu1, v: fv1, color },
        bl: Vertex { x: blx, y: bly, u: fu0, v: fv1, color },
    }
}

/// Law: with no rotation, unit scale, a zero origin, the full texture
/// extent and no flip, the built quad is an axis-aligned rectangle anchored
/// at the position whose sides are the texture extent, and its UVs span one
/// full unit of texture space on both axes.
pub proof fn lemma_build_quad_round_trip(
    q: Quad,
    tex_width: u32,
    tex_height: u32,
    position: Vector2,
    color: Color,
)
    requires
        tex_dims_ok(tex_width, tex_height),
        vec_coord_ok(position),
        quad_built(
            q,
            tex_width,
            tex_height,
            position,
            Option::None,
            Rotation { cos: FX_ONE, sin: 0 },
            Option::None,
            Option::None,
            color,
            SpriteFlip::FlipNone,
        ),
    ensures
        q.tl.x == position.x && q.tl.y == position.y,
        q.tr.x == position.x + (tex_width as int) * (FX_ONE as int) && q.tr.y == position.y,
        q.br.x == position.x + (tex_width as int) * (FX_ONE as int) && q.br.y == position.y + (
        tex_height as int) * (FX_ONE as int),
        q.bl.x == position.x && q.bl.y == position.y + (tex_height as int) * (FX_ONE as int),
        q.tl.u == 0 && q.tl.v == 0,
        q.tr.u == FX_ONE as int && q.tr.v == 0,
        q.br.u == FX_ONE as int && q.br.v == FX_ONE as int,
        q.bl.u == 0 && q.bl.v == FX_ONE as int,
{
    let w = (tex_width as int) * (FX_ONE as int);
    let h = (tex_height as int) * (FX_ONE as int);
    lemma_fx_mul_one(0);
    lemma_fx_mul_one(w);
    lemma_fx_mul_one(h);
    lemma_fx_mul_zero(0);
    lemma_fx_mul_zero(w);
    lemma_fx_mul_zero(h);
    lemma_div_basics(tex_width as int);
    lemma_div_basics(tex_height as int);
    lemma_tdiv_multiple(FX_ONE as int, tex_width as int);
    lemma_tdiv_multiple(FX_ONE as int, tex_height as int);
}

/// Law: one extra horizontal mirroring applied twice is the identity on
/// the flip state, and it never touches the vertical axis.
pub proof fn lemma_flip_h_involution(f: SpriteFlip, lo: int, hi: int)
    ensures
        flip_h_then(flip_h_then(f)) == f,
        flips_v(flip_h_then(f)) == flips_v(f),
        uv_near(flips_h(flip_h_then(f)), lo, hi) == uv_far(flips_h(f), lo, hi),
        uv_far(flips_h(flip_h_then(f)), lo, hi) == uv_near(flips_h(f), lo, hi),
{
}

/// Law: one extra vertical mirroring applied twice is the identity on the
/// flip state, and it never touches the horizontal axis.
pub proof fn lemma_flip_v_involution(f: SpriteFlip, lo: int, hi: int)
    ensures
        flip_v_then(flip_v_then(f)) == f,
        flips_h(flip_v_then(f)) == flips_h(f),
        uv_near(flips_v(flip_v_then(f)), lo, hi) == uv_far(flips_v(f), lo, hi),
        uv_far(flips_v(flip_v_then(f)), lo, hi) == uv_near(flips_v(f), lo, hi),
{
}

/// Law: two quads built with the same arguments, one with an extra double
/// horizontal mirroring, are identical — flipping twice restores the
/// original UV assignment.
pub proof fn lemma_flip_h_twice_restores(
    qa: Quad,
    qb: Quad,
    tex_width: u32,
    tex_height: u32,
    position: Vector2,
    src: Option<Rectangle>,
    rot: Rotation,
    origin: Option<Vector2>,
    scale: Option<Vector2>,
    color: Color,
    flip: SpriteFlip,
)
    requires
        quad_built(qa, tex_width, tex_height, position, src, rot, origin, scale, color, flip),
        quad_built(
            qb,
            tex_width,
            tex_height,
            position,
            src,
            rot,
            origin,
            scale,
            color,
            flip_h_then(flip_h_then(flip)),
        ),
    ensures
        qb == qa,
{
    assert(flip_h_then(flip_h_then(flip)) == flip);
}

/// Law: the flip never moves a vertex — two quads built with the same
/// arguments but different flips agree on every vertex position.
pub proof fn lemma_flip_leaves_positions(
    qa: Quad,
    qb: Quad,
    tex_width: u32,
    tex_height: u32,
    position: Vector2,
    src: Option<Rectangle>,
    rot: Rotation,
    origin: Option<Vector2>,
    scale: Option<Vector2>,
    color: Color,
    fa: SpriteFlip,
    fb: SpriteFlip,
)
    requires
        quad_built(qa, tex_width, tex_height, position, src, rot, origin, scale, color, fa),
        quad_built(qb, tex_width, tex_height, position, src, rot, origin, scale, color, fb),
    ensures
        qa.tl.x == qb.tl.x && qa.tl.y == qb.tl.y,
        qa.tr.x == qb.tr.x && qa.tr.y == qb.tr.y,
        qa.br.x == qb.br.x && qa.br.y == qb.br.y,
        qa.bl.x == qb.bl.x && qa.bl.y == qb.bl.y,
{
}

} // verus!
