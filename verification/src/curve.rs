//! The zoom offset curve: samples of the camera's offset from its look-at
//! point, from near to far, and the offset at a zoom level between them.

use vstd::prelude::*;
use crate::scalar::UNIT;
use crate::scalar::div_toward_zero;
use crate::scalar::lemma_div_toward_zero_bound;
use crate::scalar::quotient;
use crate::vec3::Vec3;
use crate::vec3::Vector;

verus! {

/// Where a zoom level falls on a curve of `len` samples, in millionths of
/// the step between two samples: zoom level 0 is the first sample, `UNIT` the
/// last.
pub open spec fn curve_place(len: int, zoom: int) -> int {
    zoom * (len - 1)
}

/// Index of the sample at or below the zoom level.
pub open spec fn lower_index(len: int, zoom: int) -> int {
    curve_place(len, zoom) / (UNIT as int)
}

/// Index of the sample at or above the zoom level.
pub open spec fn upper_index(len: int, zoom: int) -> int {
    if mix(len, zoom) == 0 {
        lower_index(len, zoom)
    } else {
        lower_index(len, zoom) + 1
    }
}

/// How far the zoom level lies past the lower sample, in millionths of the
/// step to the upper one.
pub open spec fn mix(len: int, zoom: int) -> int {
    curve_place(len, zoom) % (UNIT as int)
}

/// The value `mix` millionths of the way from `a` to `b`, rounded toward `a`.
pub open spec fn lerp(a: int, b: int, mix: int) -> int {
    a + div_toward_zero((b - a) * mix, UNIT as int)
}

/// The offset at `zoom` on `curve`: the linear interpolation between the two
/// samples that the zoom level falls between.
pub open spec fn interpolate(curve: Seq<Vec3>, zoom: int) -> Vector {
    let a = curve[lower_index(curve.len() as int, zoom)];
    let b = curve[upper_index(curve.len() as int, zoom)];
    let m = mix(curve.len() as int, zoom);
    Vector {
        x: lerp(a.x as int, b.x as int, m),
        y: lerp(a.y as int, b.y as int, m),
        z: lerp(a.z as int, b.z as int, m),
    }
}

/// For a zoom level in `[0, UNIT]` both indices are on the curve, and at most
/// one step apart.
pub proof fn lemma_indices_on_curve(len: int, zoom: int)
    requires
        len >= 1,
        0 <= zoom <= UNIT,
    ensures
        0 <= lower_index(len, zoom) <= upper_index(len, zoom) <= len - 1,
        upper_index(len, zoom) <= lower_index(len, zoom) + 1,
        0 <= mix(len, zoom) < UNIT,
        curve_place(len, zoom) == lower_index(len, zoom) * UNIT + mix(len, zoom),
{
    let t = curve_place(len, zoom);
    let u = UNIT as int;
    assert(0 <= t <= u * (len - 1)) by (nonlinear_arith)
        requires
            t == zoom * (len - 1),
            0 <= zoom <= u,
            len >= 1,
    ;
    assert(t == (t / u) * u + t % u && 0 <= t % u < u && 0 <= t / u <= len - 1 && (t % u != 0
        ==> t / u < len - 1)) by (nonlinear_arith)
        requires
            0 <= t <= u * (len - 1),
            u > 0,
    ;
}

/// A value interpolated between `a` and `b` lies between them.
pub proof fn lemma_lerp_between(a: int, b: int, mix: int)
    requires
        0 <= mix < UNIT,
    ensures
        a <= b ==> a <= lerp(a, b, mix) <= b,
        b <= a ==> b <= lerp(a, b, mix) <= a,
        mix == 0 ==> lerp(a, b, mix) == a,
{
    let u = UNIT as int;
    let n = (b - a) * mix;
    let m = if a <= b { b - a } else { a - b };
    assert(-(m * u) <= n <= m * u && (a <= b ==> n >= 0) && (b <= a ==> n <= 0) && (mix == 0
        ==> n == 0)) by (nonlinear_arith)
        requires
            n == (b - a) * mix,
            0 <= mix < u,
            m == if a <= b { b - a } else { a - b },
    ;
    lemma_div_toward_zero_bound(n, u, m);
    if n >= 0 {
        assert(n / u >= 0) by (nonlinear_arith)
            requires
                n >= 0,
                u > 0,
        ;
    } else {
        assert((-n) / u >= 0) by (nonlinear_arith)
            requires
                -n >= 0,
                u > 0,
        ;
    }
    if mix == 0 {
        assert(0int / u == 0) by (nonlinear_arith)
            requires
                u > 0,
        ;
    }
}

/// At the two ends of the zoom range the offset is the first and the last
/// sample.
pub proof fn lemma_interpolate_ends(curve: Seq<Vec3>)
    requires
        curve.len() >= 1,
    ensures
        interpolate(curve, 0) == curve[0]@,
        interpolate(curve, UNIT as int) == curve[curve.len() - 1]@,
{
    let len = curve.len() as int;
    let u = UNIT as int;
    assert(curve_place(len, 0) == 0) by (nonlinear_arith)
        requires
            curve_place(len, 0) == 0 * (len - 1),
    ;
    assert(0int / u == 0 && 0int % u == 0) by (nonlinear_arith)
        requires
            u > 0,
    ;
    let t = curve_place(len, u);
    assert(t / u == len - 1 && t % u == 0) by (nonlinear_arith)
        requires
            t == u * (len - 1),
            u > 0,
    ;
    lemma_lerp_between(curve[0].x as int, curve[0].x as int, 0);
    lemma_lerp_between(curve[0].y as int, curve[0].y as int, 0);
    lemma_lerp_between(curve[0].z as int, curve[0].z as int, 0);
    let last = curve[len - 1];
    lemma_lerp_between(last.x as int, last.x as int, 0);
    lemma_lerp_between(last.y as int, last.y as int, 0);
    lemma_lerp_between(last.z as int, last.z as int, 0);
}

/// One coordinate of the interpolation.
fn lerp_coordinate(a: i32, b: i32, mix: i64) -> (r: i32)
    requires
        0 <= mix < UNIT,
    ensures
        r == lerp(a as int, b as int, mix as int),
{
    let span: i128 = b as i128 - a as i128;
    assert(-0x1_0000_0000_0000_0000 <= span * mix <= 0x1_0000_0000_0000_0000) by (nonlinear_arith)
        requires
            -0x1_0000_0000 <= span <= 0x1_0000_0000,
            0 <= mix < 1_000_000,
    ;
    let part: i128 = quotient(span * (mix as i128), UNIT as i128);
    proof {
        lemma_lerp_between(a as int, b as int, mix as int);
    }
    (a as i128 + part) as i32
}

/// The offset at `zoom` on `curve`.
pub fn offset_at(curve: &Vec<Vec3>, zoom: i64) -> (offset: Vec3)
    requires
        curve.len() >= 1,
        0 <= zoom <= UNIT,
    ensures
        offset@ == interpolate(curve@, zoom as int),
{
    let steps: u128 = (curve.len() - 1) as u128;
    proof {
        lemma_indices_on_curve(curve.len() as int, zoom as int);
    }
    assert(0 <= zoom * steps <= 1_000_000 * 0xffff_ffff_ffff_ffff) by (nonlinear_arith)
        requires
            0 <= zoom <= 1_000_000,
            0 <= steps <= 0xffff_ffff_ffff_ffff,
    ;
    let place: u128 = (zoom as u128) * steps;
    let low: usize = (place / (UNIT as u128)) as usize;
    let m: i64 = (place % (UNIT as u128)) as i64;
    let high: usize = if m == 0 {
        low
    } else {
        low + 1
    };
    let a: Vec3 = curve[low];
    let b: Vec3 = curve[high];
    Vec3 {
        x: lerp_coordinate(a.x, b.x, m),
        y: lerp_coordinate(a.y, b.y, m),
        z: lerp_coordinate(a.z, b.z, m),
    }
}

/// Sample `i` of `steps` samples taken at even distances from `near`
/// toward `far`. The first sample is `near`; `far` itself would be sample
/// `steps`, which is not taken.
pub open spec fn sample(near: Vector, far: Vector, i: int, steps: int) -> Vector {
    Vector {
        x: near.x + div_toward_zero((far.x - near.x) * i, steps),
        y: near.y + div_toward_zero((far.y - near.y) * i, steps),
        z: near.z + div_toward_zero((far.z - near.z) * i, steps),
    }
}

/// One coordinate of a sample lies between the two ends.
pub proof fn lemma_sample_between(near: int, far: int, i: int, steps: int)
    requires
        0 <= i < steps,
    ensures
        near <= far ==> near <= near + div_toward_zero((far - near) * i, steps) <= far,
        far <= near ==> far <= near + div_toward_zero((far - near) * i, steps) <= near,
        i == 0 ==> near + div_toward_zero((far - near) * i, steps) == near,
{
    let n = (far - near) * i;
    let m = if near <= far { far - near } else { near - far };
    assert(-(m * steps) <= n <= m * steps && (near <= far ==> n >= 0) && (far <= near ==> n <= 0)
        && (i == 0 ==> n == 0)) by (nonlinear_arith)
        requires
            n == (far - near) * i,
            0 <= i < steps,
            m == if near <= far { far - near } else { near - far },
    ;
    lemma_div_toward_zero_bound(n, steps, m);
    if n >= 0 {
        assert(n / steps >= 0) by (nonlinear_arith)
            requires
                n >= 0,
                steps > 0,
        ;
    } else {
        assert((-n) / steps >= 0) by (nonlinear_arith)
            requires
                -n >= 0,
                steps > 0,
        ;
    }
    if i == 0 {
        assert(0int / steps == 0) by (nonlinear_arith)
            requires
                steps > 0,
        ;
    }
}

/// One coordinate of a sample.
fn sample_coordinate(near: i32, far: i32, i: u32, steps: u32) -> (r: i32)
    requires
        i < steps,
    ensures
        r == near + div_toward_zero((far - near) * i, steps as int),
{
    let span: i128 = far as i128 - near as i128;
    assert(-0x1_0000_0000_0000_0000 <= span * i <= 0x1_0000_0000_0000_0000) by (nonlinear_arith)
        requires
            -0x1_0000_0000 <= span <= 0x1_0000_0000,
            0 <= i < 0x1_0000_0000,
    ;
    let part: i128 = quotient(span * (i as i128), steps as i128);
    proof {
        lemma_sample_between(near as int, far as int, i as int, steps as int);
    }
    (near as i128 + part) as i32
}

/// A zoom curve of `steps` offsets, taken at even distances from `near`
/// toward `far`.
pub fn sweep(near: Vec3, far: Vec3, steps: u32) -> (offsets: Vec<Vec3>)
    ensures
        offsets@.len() == steps,
        forall|i: int|
            0 <= i < steps ==> (#[trigger] offsets@[i])@ == sample(near@, far@, i, steps as int),
{
    let mut offsets: Vec<Vec3> = Vec::new();
    let mut i: u32 = 0;
    while i < steps
        invariant
            i <= steps,
            offsets@.len() == i,
            forall|j: int|
                0 <= j < i ==> (#[trigger] offsets@[j])@ == sample(near@, far@, j, steps as int),
        decreases steps - i,
    {
        offsets.push(
            Vec3 {
                x: sample_coordinate(near.x, far.x, i, steps),
                y: sample_coordinate(near.y, far.y, i, steps),
                z: sample_coordinate(near.z, far.z, i, steps),
            },
        );
        i += 1;
    }
    offsets
}

} // verus!
