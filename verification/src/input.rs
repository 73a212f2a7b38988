//! What a frame brings to the rig: the wheel, the held keys and the elapsed
//! time, and the signed steps they ask for.

use vstd::prelude::*;
use crate::scalar::MICROS_PER_SECOND;

verus! {

/// The rig's keys, each `true` while it is held down.
#[derive(Clone, Copy, Debug, PartialEq, Eq, Structural)]
pub struct HeldKeys {
    pub zoom_in: bool,
    pub zoom_out: bool,
    pub rotate_left: bool,
    pub rotate_right: bool,
    pub forward: bool,
    pub back: bool,
    pub left: bool,
    pub right: bool,
}

impl Default for HeldKeys {
    /// No key held.
    fn default() -> (keys: Self)
        ensures
            keys == HeldKeys::none(),
    {
        HeldKeys {
            zoom_in: false,
            zoom_out: false,
            rotate_left: false,
            rotate_right: false,
            forward: false,
            back: false,
            left: false,
            right: false,
        }
    }
}

impl HeldKeys {
    /// No key held.
    pub open spec fn none() -> HeldKeys {
        HeldKeys {
            zoom_in: false,
            zoom_out: false,
            rotate_left: false,
            rotate_right: false,
            forward: false,
            back: false,
            left: false,
            right: false,
        }
    }
}

/// One frame's input.
#[derive(Clone, Copy, Debug, PartialEq, Eq, Structural)]
pub struct FrameInput {
    /// Wheel movement since the last frame. Only its sign is read.
    pub scroll_delta: i64,
    pub held_keys: HeldKeys,
    /// Microseconds since the last frame. A negative value is refused.
    pub dt: i64,
}

impl FrameInput {
    /// The direction of the zoom step: -1 toward the near end of the curve,
    /// +1 toward the far end. The keys win over the wheel, and zooming out
    /// wins over zooming in.
    pub open spec fn zoom_sign(&self) -> int {
        if self.held_keys.zoom_out {
            1
        } else if self.held_keys.zoom_in {
            -1
        } else if self.scroll_delta < 0 {
            -1
        } else if self.scroll_delta > 0 {
            1
        } else {
            0
        }
    }

    /// The direction of the zoom step.
    pub fn zoom_direction(&self) -> (direction: i64)
        ensures
            direction == self.zoom_sign(),
    {
        if self.held_keys.zoom_out {
            1
        } else if self.held_keys.zoom_in {
            -1
        } else if self.scroll_delta < 0 {
            -1
        } else if self.scroll_delta > 0 {
            1
        } else {
            0
        }
    }

    /// The direction of the rotation step: -1 for the left key, +1 for the
    /// right key, which wins where both are held.
    pub open spec fn rotation_sign(&self) -> int {
        if self.held_keys.rotate_right {
            1
        } else if self.held_keys.rotate_left {
            -1
        } else {
            0
        }
    }

    /// The direction of the rotation step.
    pub fn rotation_direction(&self) -> (direction: i64)
        ensures
            direction == self.rotation_sign(),
    {
        if self.held_keys.rotate_right {
            1
        } else if self.held_keys.rotate_left {
            -1
        } else {
            0
        }
    }

    /// The pan step along the forward direction: +1 for the forward key, -1
    /// for the back key, which wins where both are held.
    pub open spec fn forward_sign(&self) -> int {
        if self.held_keys.back {
            -1
        } else if self.held_keys.forward {
            1
        } else {
            0
        }
    }

    /// The pan step along the forward direction.
    pub fn forward_direction(&self) -> (direction: i64)
        ensures
            direction == self.forward_sign(),
    {
        if self.held_keys.back {
            -1
        } else if self.held_keys.forward {
            1
        } else {
            0
        }
    }

    /// The pan step along the right direction, which is the forward
    /// direction turned a quarter turn counterclockwise about the up axis: -1
    /// for the right key, +1 for the left key, which wins where both are
    /// held.
    pub open spec fn right_sign(&self) -> int {
        if self.held_keys.left {
            1
        } else if self.held_keys.right {
            -1
        } else {
            0
        }
    }

    /// The pan step along the right direction.
    pub fn right_direction(&self) -> (direction: i64)
        ensures
            direction == self.right_sign(),
    {
        if self.held_keys.left {
            1
        } else if self.held_keys.right {
            -1
        } else {
            0
        }
    }

    /// Whether the keys ask for a pan.
    pub open spec fn spec_wants_pan(&self) -> bool {
        self.forward_sign() != 0 || self.right_sign() != 0
    }

    /// Whether the keys ask for a pan.
    #[verifier::when_used_as_spec(spec_wants_pan)]
    pub fn wants_pan(&self) -> (wanted: bool)
        ensures
            wanted == self.spec_wants_pan(),
    {
        self.forward_direction() != 0 || self.right_direction() != 0
    }

    /// The elapsed time that steps are scaled by: `dt` cut to the range from
    /// zero to one second, so that a hitch cannot produce a leap.
    pub open spec fn spec_clamped_dt(&self) -> i64 {
        if self.dt < 0 {
            0
        } else if self.dt > MICROS_PER_SECOND {
            MICROS_PER_SECOND
        } else {
            self.dt
        }
    }

    /// The elapsed time that steps are scaled by.
    #[verifier::when_used_as_spec(spec_clamped_dt)]
    pub fn clamped_dt(&self) -> (dt: i64)
        ensures
            dt == self.spec_clamped_dt(),
            0 <= dt <= MICROS_PER_SECOND,
    {
        if self.dt < 0 {
            0
        } else if self.dt > MICROS_PER_SECOND {
            MICROS_PER_SECOND
        } else {
            self.dt
        }
    }
}

/// How far a value moving at `speed` per second gets in `dt` microseconds,
/// rounded down.
pub open spec fn distance(speed: int, dt: int) -> int {
    (speed * dt) / (MICROS_PER_SECOND as int)
}

/// Within a second, a value moves forward and by no more than its speed;
/// in no time it does not move.
pub proof fn lemma_distance_bounds(speed: int, dt: int)
    requires
        0 <= speed,
        0 <= dt <= MICROS_PER_SECOND,
    ensures
        0 <= distance(speed, dt) <= speed,
        dt == 0 ==> distance(speed, dt) == 0,
{
    let n = speed * dt;
    let d = MICROS_PER_SECOND as int;
    assert(0 <= n <= speed * d && (dt == 0 ==> n == 0)) by (nonlinear_arith)
        requires
            n == speed * dt,
            0 <= dt <= d,
            0 <= speed,
    ;
    assert(0 <= n / d <= speed && (n == 0 ==> n / d == 0)) by (nonlinear_arith)
        requires
            0 <= n <= speed * d,
            d > 0,
    ;
}

/// How far a value moving at `speed` per second gets in `dt` microseconds,
/// rounded down.
pub fn step(speed: u32, dt: i64) -> (moved: i64)
    requires
        0 <= dt <= MICROS_PER_SECOND,
    ensures
        moved == distance(speed as int, dt as int),
        0 <= moved <= speed,
{
    proof {
        lemma_distance_bounds(speed as int, dt as int);
    }
    assert(0 <= speed * dt <= 0xffff_ffff * 1_000_000) by (nonlinear_arith)
        requires
            0 <= speed <= 0xffff_ffff,
            0 <= dt <= 1_000_000,
    ;
    (speed as i64 * dt) / MICROS_PER_SECOND
}

} // verus!
