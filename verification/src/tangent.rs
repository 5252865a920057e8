//! Exact model of the per-triangle tangent and bitangent computation.
//!
//! For normal mapping, every triangle of the quad mesh carries a tangent and
//! a bitangent, solved from the gradients of its texture coordinates: with
//! edges `e1 = pb - pa`, `e2 = pc - pa` and texture-coordinate deltas
//! `duv1 = uvb - uva`, `duv2 = uvc - uva`, the solution scales
//! `duv2.y * e1 - duv1.y * e2` (and its negation) by the reciprocal of the
//! determinant `duv1.x * duv2.y - duv2.x * duv1.y`.
//!
//! Every coordinate of the generated mesh is a fraction over the step
//! counts, so the whole computation can be carried out on exact rational
//! numbers. This module does that, at the specification level, and proves
//! the two facts the renderer relies on: the determinant of a grid cell's
//! triangles is never zero (the reciprocal is well defined), and the
//! resulting tangent and bitangent lie in the plane of the mesh (their dot
//! product with the flat normal is zero).

use vstd::prelude::*;
use vstd::arithmetic::mul::lemma_mul_nonzero;
use vstd::arithmetic::div_mod::{
    lemma_div_pos_is_pos, lemma_fundamental_div_mod, lemma_mod_pos_bound,
};
use crate::mesh::{spec_corner_du, spec_corner_dv, spec_grid_vertex, spec_sample_steps,
    spec_second_triangle, SAMPLE_LEVELS};

verus! {

/// An exact rational number: `num / den`. Meaningful when `den` is nonzero;
/// the fraction is not kept reduced.
pub struct Rat {
    pub num: int,
    pub den: int,
}

/// The rational `num / den`.
pub open spec fn rat(num: int, den: int) -> Rat {
    Rat { num, den }
}

/// The rational with value of the integer `n`.
pub open spec fn rat_int(n: int) -> Rat {
    rat(n, 1)
}

/// A rational is well formed when its denominator is nonzero.
pub open spec fn rat_wf(a: Rat) -> bool {
    a.den != 0
}

/// Whether a well-formed rational has value zero.
pub open spec fn rat_is_zero(a: Rat) -> bool {
    a.num == 0
}

/// Whether two well-formed rationals have the same value.
pub open spec fn rat_eq(a: Rat, b: Rat) -> bool {
    a.num * b.den == b.num * a.den
}

pub open spec fn rat_add(a: Rat, b: Rat) -> Rat {
    rat(a.num * b.den + b.num * a.den, a.den * b.den)
}

pub open spec fn rat_sub(a: Rat, b: Rat) -> Rat {
    rat(a.num * b.den - b.num * a.den, a.den * b.den)
}

pub open spec fn rat_mul(a: Rat, b: Rat) -> Rat {
    rat(a.num * b.num, a.den * b.den)
}

pub open spec fn rat_neg(a: Rat) -> Rat {
    rat(-a.num, a.den)
}

/// The reciprocal; well formed only when `a` is nonzero.
pub open spec fn rat_recip(a: Rat) -> Rat {
    rat(a.den, a.num)
}

/// A two-component vector of exact rationals (a texture coordinate).
pub struct RatVec2 {
    pub x: Rat,
    pub y: Rat,
}

/// A three-component vector of exact rationals (a position or direction).
pub struct RatVec3 {
    pub x: Rat,
    pub y: Rat,
    pub z: Rat,
}

pub open spec fn vec2_wf(v: RatVec2) -> bool {
    rat_wf(v.x) && rat_wf(v.y)
}

pub open spec fn vec2_sub(a: RatVec2, b: RatVec2) -> RatVec2 {
    RatVec2 { x: rat_sub(a.x, b.x), y: rat_sub(a.y, b.y) }
}

pub open spec fn vec3_sub(a: RatVec3, b: RatVec3) -> RatVec3 {
    RatVec3 { x: rat_sub(a.x, b.x), y: rat_sub(a.y, b.y), z: rat_sub(a.z, b.z) }
}

pub open spec fn vec3_dot(a: RatVec3, b: RatVec3) -> Rat {
    rat_add(rat_add(rat_mul(a.x, b.x), rat_mul(a.y, b.y)), rat_mul(a.z, b.z))
}

/// The flat normal of the planar mesh.
pub open spec fn flat_normal() -> RatVec3 {
    RatVec3 { x: rat_int(0), y: rat_int(0), z: rat_int(1) }
}

/// The determinant of the texture-coordinate deltas of a triangle; the
/// tangent solve divides by it.
pub open spec fn uv_determinant(duv1: RatVec2, duv2: RatVec2) -> Rat {
    rat_sub(rat_mul(duv1.x, duv2.y), rat_mul(duv2.x, duv1.y))
}

/// The tangent of the triangle `(pa, pb, pc)` with texture coordinates
/// `(uva, uvb, uvc)`: `f * (duv2.y * e1 - duv1.y * e2)` componentwise, with
/// `f` the reciprocal of the determinant.
pub open spec fn triangle_tangent(
    pa: RatVec3,
    pb: RatVec3,
    pc: RatVec3,
    uva: RatVec2,
    uvb: RatVec2,
    uvc: RatVec2,
) -> RatVec3 {
    let e1 = vec3_sub(pb, pa);
    let e2 = vec3_sub(pc, pa);
    let duv1 = vec2_sub(uvb, uva);
    let duv2 = vec2_sub(uvc, uva);
    let f = rat_recip(uv_determinant(duv1, duv2));
    RatVec3 {
        x: rat_mul(f, rat_sub(rat_mul(duv2.y, e1.x), rat_mul(duv1.y, e2.x))),
        y: rat_mul(f, rat_sub(rat_mul(duv2.y, e1.y), rat_mul(duv1.y, e2.y))),
        z: rat_mul(f, rat_sub(rat_mul(duv2.y, e1.z), rat_mul(duv1.y, e2.z))),
    }
}

/// The bitangent of the triangle: `f * (-duv2.y * e1 + duv1.y * e2)`
/// componentwise.
pub open spec fn triangle_bitangent(
    pa: RatVec3,
    pb: RatVec3,
    pc: RatVec3,
    uva: RatVec2,
    uvb: RatVec2,
    uvc: RatVec2,
) -> RatVec3 {
    let e1 = vec3_sub(pb, pa);
    let e2 = vec3_sub(pc, pa);
    let duv1 = vec2_sub(uvb, uva);
    let duv2 = vec2_sub(uvc, uva);
    let f = rat_recip(uv_determinant(duv1, duv2));
    RatVec3 {
        x: rat_mul(f, rat_add(rat_mul(rat_neg(duv2.y), e1.x), rat_mul(duv1.y, e2.x))),
        y: rat_mul(f, rat_add(rat_mul(rat_neg(duv2.y), e1.y), rat_mul(duv1.y, e2.y))),
        z: rat_mul(f, rat_add(rat_mul(rat_neg(duv2.y), e1.z), rat_mul(duv1.y, e2.z))),
    }
}

/// A product with a zero factor is zero.
proof fn lemma_zero_factor(x: int, y: int)
    requires
        x == 0,
    ensures
        x * y == 0,
        y * x == 0,
{
    assert(x * y == 0 && y * x == 0) by (nonlinear_arith)
        requires
            x == 0,
    ;
}

/// The tangent and the bitangent of a triangle that lies in the `z = 0`
/// plane lie in that plane themselves: their `z` component is zero, and so
/// is their dot product with the flat normal, for every choice of texture
/// coordinates.
pub proof fn lemma_tangent_in_plane(
    pa: RatVec3,
    pb: RatVec3,
    pc: RatVec3,
    uva: RatVec2,
    uvb: RatVec2,
    uvc: RatVec2,
)
    requires
        rat_is_zero(pa.z),
        rat_is_zero(pb.z),
        rat_is_zero(pc.z),
    ensures
        rat_is_zero(triangle_tangent(pa, pb, pc, uva, uvb, uvc).z),
        rat_is_zero(triangle_bitangent(pa, pb, pc, uva, uvb, uvc).z),
        rat_is_zero(vec3_dot(triangle_tangent(pa, pb, pc, uva, uvb, uvc), flat_normal())),
        rat_is_zero(vec3_dot(triangle_bitangent(pa, pb, pc, uva, uvb, uvc), flat_normal())),
{
    let t = triangle_tangent(pa, pb, pc, uva, uvb, uvc);
    let b = triangle_bitangent(pa, pb, pc, uva, uvb, uvc);
    let e1 = vec3_sub(pb, pa);
    let e2 = vec3_sub(pc, pa);
    let duv1 = vec2_sub(uvb, uva);
    let duv2 = vec2_sub(uvc, uva);
    let f = rat_recip(uv_determinant(duv1, duv2));

    // The edges of a planar triangle have a zero z component.
    lemma_zero_factor(pb.z.num, pa.z.den);
    lemma_zero_factor(pa.z.num, pb.z.den);
    assert(e1.z.num == 0);
    lemma_zero_factor(pc.z.num, pa.z.den);
    lemma_zero_factor(pa.z.num, pc.z.den);
    assert(e2.z.num == 0);

    // So do the two scaled edges, their difference and their sum.
    lemma_zero_factor(e1.z.num, duv2.y.num);
    lemma_zero_factor(e1.z.num, -duv2.y.num);
    lemma_zero_factor(e2.z.num, duv1.y.num);
    let ma = rat_mul(duv2.y, e1.z);
    let mb = rat_mul(duv1.y, e2.z);
    let mn = rat_mul(rat_neg(duv2.y), e1.z);
    assert(ma.num == 0 && mb.num == 0 && mn.num == 0);
    lemma_zero_factor(ma.num, mb.den);
    lemma_zero_factor(mb.num, ma.den);
    lemma_zero_factor(mn.num, mb.den);
    lemma_zero_factor(mb.num, mn.den);
    let st = rat_sub(ma, mb);
    let sb = rat_add(mn, mb);
    assert(st.num == 0 && sb.num == 0);

    // Scaling by the reciprocal of the determinant keeps the zero.
    lemma_zero_factor(st.num, f.num);
    lemma_zero_factor(sb.num, f.num);
    assert(t.z == rat_mul(f, st));
    assert(b.z == rat_mul(f, sb));
    assert(rat_is_zero(t.z));
    assert(rat_is_zero(b.z));

    // The dot product with (0, 0, 1) reduces to the zero z component.
    lemma_dot_flat_normal_zero_z(t);
    lemma_dot_flat_normal_zero_z(b);
}

/// The dot product of a vector with the flat normal is zero exactly when
/// the vector's z component is zero.
proof fn lemma_dot_flat_normal_zero_z(v: RatVec3)
    requires
        rat_is_zero(v.z),
    ensures
        rat_is_zero(vec3_dot(v, flat_normal())),
{
    let n = flat_normal();
    let mx = rat_mul(v.x, n.x);
    let my = rat_mul(v.y, n.y);
    let mz = rat_mul(v.z, n.z);
    lemma_zero_factor(0, v.x.num);
    lemma_zero_factor(0, v.y.num);
    assert(mx.num == 0 && my.num == 0);
    lemma_zero_factor(mx.num, my.den);
    lemma_zero_factor(my.num, mx.den);
    let inner = rat_add(mx, my);
    assert(inner.num == 0);
    assert(mz.num == v.z.num * 1);
    assert(mz.num == 0);
    lemma_zero_factor(inner.num, mz.den);
    lemma_zero_factor(mz.num, inner.den);
    assert(rat_add(inner, mz).num == 0);
}

/// When the first texture axis of `duv1` and the second of `duv2` multiply
/// to zero while the two crossed components are nonzero, the determinant is
/// nonzero. Both triangles of a grid cell have their texture-coordinate
/// deltas in this axis-aligned form.
pub proof fn lemma_uv_determinant_nonzero(duv1: RatVec2, duv2: RatVec2)
    requires
        vec2_wf(duv1),
        vec2_wf(duv2),
        duv1.x.num * duv2.y.num == 0,
        duv2.x.num != 0,
        duv1.y.num != 0,
    ensures
        !rat_is_zero(uv_determinant(duv1, duv2)),
        rat_wf(rat_recip(uv_determinant(duv1, duv2))),
{
    let m1 = rat_mul(duv1.x, duv2.y);
    let m2 = rat_mul(duv2.x, duv1.y);
    lemma_mul_nonzero(duv2.x.num, duv1.y.num);
    assert(m2.num != 0);
    lemma_mul_nonzero(duv1.x.den, duv2.y.den);
    assert(m1.den != 0);
    lemma_mul_nonzero(m2.num, m1.den);
    let d = uv_determinant(duv1, duv2);
    assert(d.num == 0 * m2.den - m2.num * m1.den);
    assert(d.num != 0);
}

/// The exact position of grid point `(gx, gy)` of a mesh with step counts
/// `(sx, sy)`: the quad spans `[-1, 1]` on both axes, so the point is
/// `(2 gx / sx - 1, 2 gy / sy - 1, 0)`.
pub open spec fn grid_position(sx: int, sy: int, gx: int, gy: int) -> RatVec3 {
    RatVec3 { x: rat(2 * gx - sx, sx), y: rat(2 * gy - sy, sy), z: rat_int(0) }
}

/// The texture coordinate of grid point `(gx, gy)`: `(gx / sx, gy / sy)`.
pub open spec fn grid_uv(sx: int, sy: int, gx: int, gy: int) -> RatVec2 {
    RatVec2 { x: rat(gx, sx), y: rat(gy, sy) }
}

/// Corner `i` (0, 1 or 2) of one of the two triangles of cell `(cx, cy)`,
/// as a grid point. The corner numbering matches the order in which the
/// mesh generator emits the cell's vertices.
pub open spec fn cell_triangle_point(cx: int, cy: int, second: bool, i: int) -> (int, int) {
    let corner = if second { 3 + i } else { i };
    (cx + spec_corner_du(corner), cy + spec_corner_dv(corner))
}

/// The position of corner `i` of a triangle of cell `(cx, cy)`.
pub open spec fn cell_triangle_position(
    sx: int,
    sy: int,
    cx: int,
    cy: int,
    second: bool,
    i: int,
) -> RatVec3 {
    grid_position(sx, sy, cell_triangle_point(cx, cy, second, i).0, cell_triangle_point(cx, cy, second, i).1)
}

/// The texture coordinate of corner `i` of a triangle of cell `(cx, cy)`.
pub open spec fn cell_triangle_uv(
    sx: int,
    sy: int,
    cx: int,
    cy: int,
    second: bool,
    i: int,
) -> RatVec2 {
    grid_uv(sx, sy, cell_triangle_point(cx, cy, second, i).0, cell_triangle_point(cx, cy, second, i).1)
}

/// The determinant that the tangent solve of a triangle of cell `(cx, cy)`
/// divides by.
pub open spec fn cell_uv_determinant(sx: int, sy: int, cx: int, cy: int, second: bool) -> Rat {
    uv_determinant(
        vec2_sub(cell_triangle_uv(sx, sy, cx, cy, second, 1), cell_triangle_uv(sx, sy, cx, cy, second, 0)),
        vec2_sub(cell_triangle_uv(sx, sy, cx, cy, second, 2), cell_triangle_uv(sx, sy, cx, cy, second, 0)),
    )
}

/// The tangent of one of the two triangles of cell `(cx, cy)`.
pub open spec fn cell_tangent(sx: int, sy: int, cx: int, cy: int, second: bool) -> RatVec3 {
    triangle_tangent(
        cell_triangle_position(sx, sy, cx, cy, second, 0),
        cell_triangle_position(sx, sy, cx, cy, second, 1),
        cell_triangle_position(sx, sy, cx, cy, second, 2),
        cell_triangle_uv(sx, sy, cx, cy, second, 0),
        cell_triangle_uv(sx, sy, cx, cy, second, 1),
        cell_triangle_uv(sx, sy, cx, cy, second, 2),
    )
}

/// The bitangent of one of the two triangles of cell `(cx, cy)`.
pub open spec fn cell_bitangent(sx: int, sy: int, cx: int, cy: int, second: bool) -> RatVec3 {
    triangle_bitangent(
        cell_triangle_position(sx, sy, cx, cy, second, 0),
        cell_triangle_position(sx, sy, cx, cy, second, 1),
        cell_triangle_position(sx, sy, cx, cy, second, 2),
        cell_triangle_uv(sx, sy, cx, cy, second, 0),
        cell_triangle_uv(sx, sy, cx, cy, second, 1),
        cell_triangle_uv(sx, sy, cx, cy, second, 2),
    )
}

/// For every cell of every mesh the generator can produce, and for both of
/// the cell's triangles: the texture-coordinate determinant is nonzero, so
/// the tangent solve never divides by zero; and the tangent and bitangent
/// it produces lie in the plane of the mesh, that is, their dot product
/// with the flat normal is zero.
///
/// Every vertex the generator emits names a cell `(cell_x, cell_y)` inside
/// the grid and one of its two triangles, so this law applies to each of
/// them.
pub proof fn lemma_cell_tangent_planar(sx: int, sy: int, cx: int, cy: int, second: bool)
    requires
        1 <= sx,
        1 <= sy,
        0 <= cx < sx,
        0 <= cy < sy,
    ensures
        !rat_is_zero(cell_uv_determinant(sx, sy, cx, cy, second)),
        rat_is_zero(cell_tangent(sx, sy, cx, cy, second).z),
        rat_is_zero(cell_bitangent(sx, sy, cx, cy, second).z),
        rat_is_zero(vec3_dot(cell_tangent(sx, sy, cx, cy, second), flat_normal())),
        rat_is_zero(vec3_dot(cell_bitangent(sx, sy, cx, cy, second), flat_normal())),
{
    let p0 = cell_triangle_position(sx, sy, cx, cy, second, 0);
    let p1 = cell_triangle_position(sx, sy, cx, cy, second, 1);
    let p2 = cell_triangle_position(sx, sy, cx, cy, second, 2);
    let uv0 = cell_triangle_uv(sx, sy, cx, cy, second, 0);
    let uv1 = cell_triangle_uv(sx, sy, cx, cy, second, 1);
    let uv2 = cell_triangle_uv(sx, sy, cx, cy, second, 2);

    // All grid positions lie in the z = 0 plane.
    assert(rat_is_zero(p0.z) && rat_is_zero(p1.z) && rat_is_zero(p2.z));
    lemma_tangent_in_plane(p0, p1, p2, uv0, uv1, uv2);

    // The texture-coordinate deltas of both triangles are axis aligned:
    // one delta is purely vertical resp. horizontal, and the crossed
    // components are the step counts themselves, hence nonzero.
    let duv1 = vec2_sub(uv1, uv0);
    let duv2 = vec2_sub(uv2, uv0);
    assert((cy + 1) * sy - cy * sy == sy) by (nonlinear_arith);
    assert((cx + 1) * sx - cx * sx == sx) by (nonlinear_arith);
    if second {
        assert(duv1.x.num == sx && duv1.y.num == sy);
        assert(duv2.y.num == 0);
        lemma_zero_factor(duv2.y.num, duv1.x.num);
    } else {
        assert(duv1.x.num == 0);
        assert(duv1.y.num == sy && duv2.x.num == sx);
        lemma_zero_factor(duv1.x.num, duv2.y.num);
    }
    assert(duv1.x.num * duv2.y.num == 0);
    lemma_mul_nonzero(sx, sx);
    lemma_mul_nonzero(sy, sy);
    assert(vec2_wf(duv1) && vec2_wf(duv2));
    lemma_uv_determinant_nonzero(duv1, duv2);
}

/// The exact value of the tangent and bitangent of every triangle of every
/// cell of every mesh the generator can produce: the tangent solve yields
/// exactly `(2, 0, 0)`, and the bitangent solve exactly `(-2, 0, 0)`.
///
/// The numbers follow from the mesh's uniform texture mapping: the quad
/// spans two units per axis while the texture spans one, so the direction
/// of increasing `u` is scaled by two, and the bitangent of this solve is
/// the tangent's negation.
pub proof fn lemma_cell_tangent_value(sx: int, sy: int, cx: int, cy: int, second: bool)
    requires
        1 <= sx,
        1 <= sy,
        0 <= cx < sx,
        0 <= cy < sy,
    ensures
        rat_eq(cell_tangent(sx, sy, cx, cy, second).x, rat_int(2)),
        rat_is_zero(cell_tangent(sx, sy, cx, cy, second).y),
        rat_is_zero(cell_tangent(sx, sy, cx, cy, second).z),
        rat_eq(cell_bitangent(sx, sy, cx, cy, second).x, rat_int(-2)),
        rat_is_zero(cell_bitangent(sx, sy, cx, cy, second).y),
        rat_is_zero(cell_bitangent(sx, sy, cx, cy, second).z),
{
    lemma_cell_tangent_planar(sx, sy, cx, cy, second);

    let p0 = cell_triangle_position(sx, sy, cx, cy, second, 0);
    let p1 = cell_triangle_position(sx, sy, cx, cy, second, 1);
    let p2 = cell_triangle_position(sx, sy, cx, cy, second, 2);
    let uv0 = cell_triangle_uv(sx, sy, cx, cy, second, 0);
    let uv1 = cell_triangle_uv(sx, sy, cx, cy, second, 1);
    let uv2 = cell_triangle_uv(sx, sy, cx, cy, second, 2);
    let e1 = vec3_sub(p1, p0);
    let e2 = vec3_sub(p2, p0);
    let duv1 = vec2_sub(uv1, uv0);
    let duv2 = vec2_sub(uv2, uv0);
    let det = uv_determinant(duv1, duv2);
    let f = rat_recip(det);
    let t = cell_tangent(sx, sy, cx, cy, second);
    let b = cell_bitangent(sx, sy, cx, cy, second);

    // The numerators of the texture deltas and edges, per triangle.
    assert((cy + 1) * sy - cy * sy == sy) by (nonlinear_arith);
    assert((cx + 1) * sx - cx * sx == sx) by (nonlinear_arith);
    assert((2 * (cy + 1) - sy) * sy - (2 * cy - sy) * sy == 2 * sy) by (nonlinear_arith);
    assert((2 * (cx + 1) - sx) * sx - (2 * cx - sx) * sx == 2 * sx) by (nonlinear_arith);
    if !second {
        assert(duv1.x.num == 0);
        assert(duv1.y.num == sy);
        assert(duv2.x.num == sx);
        assert(duv2.y.num == sy);
        assert(e1.x.num == 0);
        assert(e1.y.num == 2 * sy);
        assert(e2.x.num == 2 * sx);
        assert(e2.y.num == 2 * sy);
    } else {
        assert(duv1.x.num == sx);
        assert(duv1.y.num == sy);
        assert(duv2.x.num == sx);
        assert(duv2.y.num == 0);
        assert(e1.x.num == 2 * sx);
        assert(e1.y.num == 2 * sy);
        assert(e2.x.num == 2 * sx);
        assert(e2.y.num == 0);
    }
    let dd: int = (sx * sx) * (sy * sy);
    let ee: int = (sy * sy) * (sx * sx);
    let dy: int = (sy * sy) * (sy * sy);

    // The determinant is `-1 / (sx * sy)`, as a fraction over `dd * dd`.
    let m1 = rat_mul(duv1.x, duv2.y);
    let m2 = rat_mul(duv2.x, duv1.y);
    if !second {
        lemma_zero_factor(duv1.x.num, duv2.y.num);
    } else {
        lemma_zero_factor(duv2.y.num, duv1.x.num);
    }
    assert(m1.num == 0);
    assert(m2.num == sx * sy);
    assert(m1.den == dd && m2.den == dd);
    lemma_zero_factor(m1.num, m2.den);
    assert(det.num == 0 - (sx * sy) * dd);
    assert(det.den == dd * dd);

    // The x component of the tangent has the exact value two.
    let q1 = rat_mul(duv2.y, e1.x);
    let q2 = rat_mul(duv1.y, e2.x);
    if !second {
        lemma_zero_factor(e1.x.num, duv2.y.num);
    } else {
        lemma_zero_factor(duv2.y.num, e1.x.num);
    }
    assert(q1.num == 0);
    assert(q2.num == sy * (2 * sx));
    assert(q1.den == ee && q2.den == ee);
    let st = rat_sub(q1, q2);
    lemma_zero_factor(q1.num, q2.den);
    assert(st.num == 0 - (sy * (2 * sx)) * ee);
    assert(st.den == ee * ee);
    assert(t.x == rat_mul(f, st));
    assert(t.x.num == (dd * dd) * (0 - (sy * (2 * sx)) * ee));
    assert(t.x.den == (0 - (sx * sy) * dd) * (ee * ee));
    assert(t.x.num * 1 == 2 * t.x.den) by (nonlinear_arith)
        requires
            t.x.num == (dd * dd) * (0 - (sy * (2 * sx)) * ee),
            t.x.den == (0 - (sx * sy) * dd) * (ee * ee),
            dd == (sx * sx) * (sy * sy),
            ee == (sy * sy) * (sx * sx),
    ;
    assert(rat_eq(t.x, rat_int(2)));

    // The y component of the tangent is zero.
    let r1 = rat_mul(duv2.y, e1.y);
    let r2 = rat_mul(duv1.y, e2.y);
    let sy2 = rat_sub(r1, r2);
    if !second {
        assert(r1.num == sy * (2 * sy) && r2.num == sy * (2 * sy));
        assert(r1.den == dy && r2.den == dy);
        assert(sy2.num == 0);
    } else {
        lemma_zero_factor(duv2.y.num, e1.y.num);
        lemma_zero_factor(e2.y.num, duv1.y.num);
        assert(r1.num == 0 && r2.num == 0);
        lemma_zero_factor(r1.num, r2.den);
        lemma_zero_factor(r2.num, r1.den);
        assert(sy2.num == 0);
    }
    lemma_zero_factor(sy2.num, f.num);
    assert(t.y == rat_mul(f, sy2));
    assert(rat_is_zero(t.y));

    // The x component of the bitangent has the exact value minus two.
    let qn = rat_mul(rat_neg(duv2.y), e1.x);
    if !second {
        lemma_zero_factor(e1.x.num, -duv2.y.num);
    } else {
        assert(-duv2.y.num == 0);
        lemma_zero_factor(-duv2.y.num, e1.x.num);
    }
    assert(qn.num == 0);
    assert(qn.den == ee);
    let sb = rat_add(qn, q2);
    lemma_zero_factor(qn.num, q2.den);
    assert(sb.num == 0 + (sy * (2 * sx)) * ee);
    assert(sb.den == ee * ee);
    assert(b.x == rat_mul(f, sb));
    assert(b.x.num == (dd * dd) * (0 + (sy * (2 * sx)) * ee));
    assert(b.x.den == (0 - (sx * sy) * dd) * (ee * ee));
    assert(b.x.num * 1 == (-2) * b.x.den) by (nonlinear_arith)
        requires
            b.x.num == (dd * dd) * (0 + (sy * (2 * sx)) * ee),
            b.x.den == (0 - (sx * sy) * dd) * (ee * ee),
            dd == (sx * sx) * (sy * sy),
            ee == (sy * sy) * (sx * sx),
    ;
    assert(rat_eq(b.x, rat_int(-2)));

    // The y component of the bitangent is zero.
    let rn = rat_mul(rat_neg(duv2.y), e1.y);
    let sby = rat_add(rn, r2);
    if !second {
        assert(rn.num == (-sy) * (2 * sy));
        assert(rn.den == dy && r2.den == dy);
        assert(((-sy) * (2 * sy)) * dy + (sy * (2 * sy)) * dy == 0) by (nonlinear_arith);
        assert(sby.num == 0);
    } else {
        assert(-duv2.y.num == 0);
        lemma_zero_factor(-duv2.y.num, e1.y.num);
        lemma_zero_factor(e2.y.num, duv1.y.num);
        assert(rn.num == 0 && r2.num == 0);
        lemma_zero_factor(rn.num, r2.den);
        lemma_zero_factor(r2.num, rn.den);
        assert(sby.num == 0);
    }
    lemma_zero_factor(sby.num, f.num);
    assert(b.y == rat_mul(f, sby));
    assert(rat_is_zero(b.y));
}

/// The tangent laws, instantiated for every vertex the mesh generator can
/// emit: for any valid sample density and any position `k` of the
/// generated buffer, the vertex at `k` names a cell inside the grid, the
/// texture determinant of its triangle is nonzero, the triangle's tangent
/// is exactly `(2, 0, 0)` and its bitangent exactly `(-2, 0, 0)`, and both
/// are orthogonal to the flat normal.
pub proof fn lemma_generated_vertex_tangent(samples_idx: int, k: int)
    requires
        0 <= samples_idx < SAMPLE_LEVELS,
        0 <= k < spec_sample_steps(samples_idx) * spec_sample_steps(samples_idx) * 6,
    ensures
        ({
            let steps = spec_sample_steps(samples_idx) as int;
            let v = spec_grid_vertex(steps, k);
            let cx = v.cell_x as int;
            let cy = v.cell_y as int;
            let second = spec_second_triangle(v);
            &&& 0 <= cx < steps
            &&& 0 <= cy < steps
            &&& v.corner < 6
            &&& !rat_is_zero(cell_uv_determinant(steps, steps, cx, cy, second))
            &&& rat_eq(cell_tangent(steps, steps, cx, cy, second).x, rat_int(2))
            &&& rat_is_zero(cell_tangent(steps, steps, cx, cy, second).y)
            &&& rat_is_zero(cell_tangent(steps, steps, cx, cy, second).z)
            &&& rat_eq(cell_bitangent(steps, steps, cx, cy, second).x, rat_int(-2))
            &&& rat_is_zero(cell_bitangent(steps, steps, cx, cy, second).y)
            &&& rat_is_zero(cell_bitangent(steps, steps, cx, cy, second).z)
            &&& rat_is_zero(vec3_dot(cell_tangent(steps, steps, cx, cy, second), flat_normal()))
            &&& rat_is_zero(
                vec3_dot(cell_bitangent(steps, steps, cx, cy, second), flat_normal()),
            )
        }),
{
    let steps = spec_sample_steps(samples_idx) as int;
    assert(1 <= steps <= 1024);

    // The flattened index decomposes into a cell inside the grid and one
    // of its six corners.
    let c = k / 6;
    let r = k % 6;
    lemma_fundamental_div_mod(k, 6);
    lemma_mod_pos_bound(k, 6);
    lemma_div_pos_is_pos(k, 6);
    assert(c < steps * steps) by (nonlinear_arith)
        requires
            k == 6 * c + r,
            0 <= r,
            k < steps * steps * 6,
    ;
    let cx = c / steps;
    let cy = c % steps;
    lemma_fundamental_div_mod(c, steps);
    lemma_mod_pos_bound(c, steps);
    lemma_div_pos_is_pos(c, steps);
    assert(cx < steps) by (nonlinear_arith)
        requires
            1 <= steps,
            c == steps * cx + cy,
            0 <= cy,
            c < steps * steps,
    ;

    let v = spec_grid_vertex(steps, k);
    assert(v.cell_x as int == cx && v.cell_y as int == cy && v.corner as int == r);
    lemma_cell_tangent_planar(steps, steps, cx, cy, spec_second_triangle(v));
    lemma_cell_tangent_value(steps, steps, cx, cy, spec_second_triangle(v));
}

} // verus!
