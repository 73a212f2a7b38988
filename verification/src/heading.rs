//! The directions a rig pans along: forward, from the camera toward the
//! look-at point within the plane orthogonal to the up axis, and right,
//! forward turned a quarter turn about the up axis.

use vstd::prelude::*;
use crate::scalar::UNIT;
use crate::scalar::div_toward_zero;
use crate::scalar::floor_sqrt;
use crate::scalar::is_floor_sqrt;
use crate::scalar::isqrt;
use crate::scalar::lemma_div_toward_zero_bound;
use crate::scalar::quotient;
use crate::vec3::POSITION_LIMIT;
use crate::vec3::Position;
use crate::vec3::Vec3;
use crate::vec3::Vector;

verus! {

/// `w` without its part along `up`: the projection of `w` onto the plane
/// orthogonal to `up`, each coordinate rounded toward that of `w`. `up`
/// need not have unit length.
pub open spec fn flatten(w: Vector, up: Vector) -> Vector {
    let along = w.dot(up);
    let square = up.dot(up);
    Vector {
        x: w.x - div_toward_zero(up.x * along, square),
        y: w.y - div_toward_zero(up.y * along, square),
        z: w.z - div_toward_zero(up.z * along, square),
    }
}

/// `d` scaled to length `UNIT`: each coordinate is multiplied by `UNIT` and
/// divided by the floor of the length of `d`, rounding toward zero.
pub open spec fn unit_toward(d: Vector) -> Vector {
    let length = floor_sqrt(d.dot(d));
    Vector {
        x: div_toward_zero(d.x * UNIT, length),
        y: div_toward_zero(d.y * UNIT, length),
        z: div_toward_zero(d.z * UNIT, length),
    }
}

/// A pair of pan directions in mathematical integers, each of length `UNIT`
/// up to rounding.
pub struct HeadingView {
    pub forward: Vector,
    pub right: Vector,
}

/// The pan directions of a camera at `camera` that looks at `look_at` with
/// `up` as its vertical axis, or `None` where there are none: `up` is zero,
/// or the camera stands straight above or below the look-at point.
///
/// The vector from the camera to the look-at point is taken in millionths
/// of a world unit before it is projected, so that a camera close to its
/// look-at point has as exact a heading as one far from it.
pub open spec fn heading(look_at: Vector, camera: Vector, up: Vector) -> Option<HeadingView> {
    let flat = flatten(look_at.minus(camera).times(UNIT as int), up);
    let forward = unit_toward(flat);
    let side = up.cross(forward);
    if up.is_zero() || flat.is_zero() || side.is_zero() {
        None
    } else {
        Some(HeadingView { forward, right: unit_toward(side) })
    }
}

/// A pair of pan directions. Every component lies in `[-UNIT, UNIT]`.
#[derive(Clone, Copy, Debug, PartialEq, Eq, Structural)]
pub struct Heading {
    pub forward: Vec3,
    pub right: Vec3,
}

impl View for Heading {
    type V = HeadingView;

    open spec fn view(&self) -> HeadingView {
        HeadingView { forward: self.forward@, right: self.right@ }
    }
}

/// The largest magnitude of a coordinate of the vector from an accepted
/// camera position to a look-at point, in millionths of a world unit.
spec fn reach() -> int {
    (POSITION_LIMIT + 0x8000_0000) * UNIT
}

/// A product is no longer than the product of the bounds of its factors.
proof fn lemma_product_bound(x: int, y: int, bx: int, by: int)
    by (nonlinear_arith)
    requires
        -bx <= x <= bx,
        -by <= y <= by,
    ensures
        -(bx * by) <= x * y <= bx * by,
{
}

/// A nonzero vector has a positive square, and no coordinate longer than
/// the floor of its length.
proof fn lemma_coordinates_within_length(d: Vector, length: int)
    requires
        is_floor_sqrt(d.dot(d), length),
    ensures
        d.within(length),
        !d.is_zero() ==> length >= 1,
{
    let dd = d.dot(d);
    assert(d.x * d.x <= dd && d.y * d.y <= dd && d.z * d.z <= dd && (!d.is_zero() ==> dd >= 1))
        by (nonlinear_arith)
        requires
            dd == d.x * d.x + d.y * d.y + d.z * d.z,
    ;
    lemma_square_root_bound(d.x, dd, length);
    lemma_square_root_bound(d.y, dd, length);
    lemma_square_root_bound(d.z, dd, length);
    if length == 0 {
        assert((length + 1) * (length + 1) == 1) by (nonlinear_arith)
            requires
                length == 0,
        ;
    }
}

/// A number whose square is at most `n` is no longer than the floor of the
/// square root of `n`.
proof fn lemma_square_root_bound(v: int, n: int, length: int)
    by (nonlinear_arith)
    requires
        v * v <= n,
        0 <= length,
        n < (length + 1) * (length + 1),
    ensures
        -length <= v <= length,
{
    if v > length {
        assert(v * v >= (length + 1) * (length + 1));
    }
    if v < -length {
        assert((-v) * (-v) >= (length + 1) * (length + 1));
        assert((-v) * (-v) == v * v);
    }
}

/// The part of `w` along `up` is, coordinate by coordinate, at most twice as
/// long as the longest coordinate of `w`.
proof fn lemma_part_along_bound(w: Vector, up: Vector, c: int, bound: int)
    requires
        w.within(bound),
        bound >= 0,
        c == up.x || c == up.y || c == up.z,
        !up.is_zero(),
    ensures
        up.dot(up) > 0,
        -(2 * bound) <= div_toward_zero(c * w.dot(up), up.dot(up)) <= 2 * bound,
{
    let a = if up.x < 0 { -up.x } else { up.x };
    let b = if up.y < 0 { -up.y } else { up.y };
    let e = if up.z < 0 { -up.z } else { up.z };
    let m = if c < 0 { -c } else { c };
    let square = up.dot(up);
    let along = w.dot(up);
    let sum = a + b + e;
    assert(square == a * a + b * b + e * e && square > 0) by (nonlinear_arith)
        requires
            square == up.x * up.x + up.y * up.y + up.z * up.z,
            a == if up.x < 0 { -up.x } else { up.x },
            b == if up.y < 0 { -up.y } else { up.y },
            e == if up.z < 0 { -up.z } else { up.z },
            a != 0 || b != 0 || e != 0,
    ;
    lemma_product_bound(w.x, up.x, bound, a);
    lemma_product_bound(w.y, up.y, bound, b);
    lemma_product_bound(w.z, up.z, bound, e);
    assert(bound * a + bound * b + bound * e == bound * sum) by (nonlinear_arith)
        requires
            sum == a + b + e,
    ;
    assert(-(bound * sum) <= along <= bound * sum);
    lemma_product_bound(c, along, m, bound * sum);
    assert(m * sum <= 2 * square) by (nonlinear_arith)
        requires
            square == a * a + b * b + e * e,
            sum == a + b + e,
            m == a || m == b || m == e,
            a >= 0,
            b >= 0,
            e >= 0,
    {
        assert(2 * (a * b) <= a * a + b * b) by {
            assert((a - b) * (a - b) >= 0);
        }
        assert(2 * (a * e) <= a * a + e * e) by {
            assert((a - e) * (a - e) >= 0);
        }
        assert(2 * (b * e) <= b * b + e * e) by {
            assert((b - e) * (b - e) >= 0);
        }
    }
    assert(m * (bound * sum) <= (2 * bound) * square) by (nonlinear_arith)
        requires
            m * sum <= 2 * square,
            bound >= 0,
    ;
    lemma_div_toward_zero_bound(c * along, square, 2 * bound);
}

/// One coordinate of `flatten`.
fn flatten_coordinate(w: i128, c: i128, along: i128, square: i128) -> (r: i128)
    requires
        -0x40_0000_0000_0000 <= w <= 0x40_0000_0000_0000,
        -0x8000_0000 <= c <= 0x8000_0000,
        -0x40_0000_0000_0000_0000_0000 <= along <= 0x40_0000_0000_0000_0000_0000,
        0 < square,
    ensures
        r == w - div_toward_zero(c * along, square as int),
{
    proof {
        lemma_product_bound(c as int, along as int, 0x8000_0000, 0x40_0000_0000_0000_0000_0000);
    }
    let part: i128 = quotient(c * along, square);
    proof {
        let most: int = 0x8000_0000int * 0x40_0000_0000_0000_0000_0000int;
        assert(most <= most * square) by (nonlinear_arith)
            requires
                square >= 1,
                most >= 0,
        ;
        lemma_div_toward_zero_bound(c * along, square as int, most);
    }
    w - part
}

/// The dot product of two vectors of bounded coordinates.
fn dot_wide(ax: i128, ay: i128, az: i128, bx: i128, by: i128, bz: i128) -> (r: i128)
    requires
        -0x80_0000_0000_0000 <= ax <= 0x80_0000_0000_0000,
        -0x80_0000_0000_0000 <= ay <= 0x80_0000_0000_0000,
        -0x80_0000_0000_0000 <= az <= 0x80_0000_0000_0000,
        -0x80_0000_0000_0000 <= bx <= 0x80_0000_0000_0000,
        -0x80_0000_0000_0000 <= by <= 0x80_0000_0000_0000,
        -0x80_0000_0000_0000 <= bz <= 0x80_0000_0000_0000,
    ensures
        r == ax * bx + ay * by + az * bz,
        -0xc000_0000_0000_0000_0000_0000_0000 <= r <= 0xc000_0000_0000_0000_0000_0000_0000,
{
    proof {
        lemma_product_bound(ax as int, bx as int, 0x80_0000_0000_0000, 0x80_0000_0000_0000);
        lemma_product_bound(ay as int, by as int, 0x80_0000_0000_0000, 0x80_0000_0000_0000);
        lemma_product_bound(az as int, bz as int, 0x80_0000_0000_0000, 0x80_0000_0000_0000);
    }
    ax * bx + ay * by + az * bz
}

/// A vector of bounded coordinates, not zero, scaled to length `UNIT`.
fn unit_toward_wide(dx: i128, dy: i128, dz: i128) -> (v: Vec3)
    requires
        -0x80_0000_0000_0000 <= dx <= 0x80_0000_0000_0000,
        -0x80_0000_0000_0000 <= dy <= 0x80_0000_0000_0000,
        -0x80_0000_0000_0000 <= dz <= 0x80_0000_0000_0000,
        dx != 0 || dy != 0 || dz != 0,
    ensures
        v@ == unit_toward(Vector { x: dx as int, y: dy as int, z: dz as int }),
        v@.within(UNIT as int),
{
    let ghost d = Vector { x: dx as int, y: dy as int, z: dz as int };
    let square: i128 = dot_wide(dx, dy, dz, dx, dy, dz);
    assert(square >= 0) by (nonlinear_arith)
        requires
            square == dx * dx + dy * dy + dz * dz,
    ;
    let length: i128 = isqrt(square as u128) as i128;
    proof {
        lemma_coordinates_within_length(d, length as int);
        lemma_product_bound(dx as int, UNIT as int, length as int, UNIT as int);
        lemma_product_bound(dy as int, UNIT as int, length as int, UNIT as int);
        lemma_product_bound(dz as int, UNIT as int, length as int, UNIT as int);
        assert(length * UNIT == UNIT * length) by (nonlinear_arith);
        lemma_div_toward_zero_bound(dx * UNIT, length as int, UNIT as int);
        lemma_div_toward_zero_bound(dy * UNIT, length as int, UNIT as int);
        lemma_div_toward_zero_bound(dz * UNIT, length as int, UNIT as int);
        lemma_product_bound(dx as int, UNIT as int, 0x80_0000_0000_0000, UNIT as int);
        lemma_product_bound(dy as int, UNIT as int, 0x80_0000_0000_0000, UNIT as int);
        lemma_product_bound(dz as int, UNIT as int, 0x80_0000_0000_0000, UNIT as int);
    }
    let unit: i128 = UNIT as i128;
    Vec3 {
        x: quotient(dx * unit, length) as i32,
        y: quotient(dy * unit, length) as i32,
        z: quotient(dz * unit, length) as i32,
    }
}

/// One coordinate of a cross product: `a * b - c * d`.
fn cross_coordinate(a: i32, b: i32, c: i32, d: i32) -> (r: i128)
    requires
        -UNIT <= b <= UNIT,
        -UNIT <= d <= UNIT,
    ensures
        r == a * b - c * d,
        -0x80_0000_0000_0000 <= r <= 0x80_0000_0000_0000,
{
    proof {
        lemma_product_bound(a as int, b as int, 0x8000_0000, UNIT as int);
        lemma_product_bound(c as int, d as int, 0x8000_0000, UNIT as int);
    }
    (a as i128) * (b as i128) - (c as i128) * (d as i128)
}

/// The pan directions of a camera at `camera` that looks at `look_at` with
/// `up` as its vertical axis, if there are any.
pub fn heading_toward(look_at: Vec3, camera: Position, up: Vec3) -> (result: Option<Heading>)
    requires
        camera@.within(POSITION_LIMIT as int),
    ensures
        match result {
            Some(found) => heading(look_at@, camera@, up@) == Some(found@),
            None => heading(look_at@, camera@, up@) is None,
        },
        result matches Some(found) ==> found.forward@.within(UNIT as int) && found.right@.within(
            UNIT as int,
        ),
{
    if up.x == 0 && up.y == 0 && up.z == 0 {
        return None;
    }
    let ghost w = look_at@.minus(camera@).times(UNIT as int);
    let unit: i128 = UNIT as i128;
    let wx: i128 = (look_at.x as i128 - camera.x as i128) * unit;
    let wy: i128 = (look_at.y as i128 - camera.y as i128) * unit;
    let wz: i128 = (look_at.z as i128 - camera.z as i128) * unit;
    let ux: i128 = up.x as i128;
    let uy: i128 = up.y as i128;
    let uz: i128 = up.z as i128;
    let square: i128 = dot_wide(ux, uy, uz, ux, uy, uz);
    let along: i128 = dot_wide(wx, wy, wz, ux, uy, uz);
    proof {
        lemma_part_along_bound(w, up@, up.x as int, reach());
        lemma_part_along_bound(w, up@, up.y as int, reach());
        lemma_part_along_bound(w, up@, up.z as int, reach());
        lemma_product_bound(wx as int, ux as int, reach(), 0x8000_0000);
        lemma_product_bound(wy as int, uy as int, reach(), 0x8000_0000);
        lemma_product_bound(wz as int, uz as int, reach(), 0x8000_0000);
    }
    let dx: i128 = flatten_coordinate(wx, ux, along, square);
    let dy: i128 = flatten_coordinate(wy, uy, along, square);
    let dz: i128 = flatten_coordinate(wz, uz, along, square);
    assert(flatten(w, up@) == (Vector { x: dx as int, y: dy as int, z: dz as int }));
    if dx == 0 && dy == 0 && dz == 0 {
        return None;
    }
    let forward: Vec3 = unit_toward_wide(dx, dy, dz);
    let sx: i128 = cross_coordinate(up.y, forward.z, up.z, forward.y);
    let sy: i128 = cross_coordinate(up.z, forward.x, up.x, forward.z);
    let sz: i128 = cross_coordinate(up.x, forward.y, up.y, forward.x);
    assert(up@.cross(forward@) == (Vector { x: sx as int, y: sy as int, z: sz as int }));
    if sx == 0 && sy == 0 && sz == 0 {
        return None;
    }
    let right: Vec3 = unit_toward_wide(sx, sy, sz);
    Some(Heading { forward, right })
}

} // verus!
