//! What holds of a rig over many steps: its laws, stated over `RigState` and
//! proved.

use vstd::prelude::*;
use crate::bounding_box::BoundingBox;
use crate::camera::pan_shift;
use crate::camera::RigState;
use crate::input::distance;
use crate::input::lemma_distance_bounds;
use crate::input::FrameInput;
use crate::scalar::UNIT;
use crate::vec3::Vector;

verus! {

/// One step of a rig's life after its curve is laid out.
pub enum Step {
    /// The first half of a frame: the zoom and rotation steps, then the pose.
    Steer(FrameInput),
    /// The second half of a frame, for a camera at the given position: the
    /// pan, then the pose.
    Pan(Vector, FrameInput),
    /// A zoom level set from outside.
    ZoomTo(int),
    /// An angle set from outside.
    Rotate(int),
    /// A look-at point set from outside.
    LookAt(Vector),
}

impl RigState {
    /// The rig after one step.
    pub open spec fn after(self, step: Step) -> RigState {
        match step {
            Step::Steer(input) => self.steer(input).refresh(),
            Step::Pan(camera, input) => self.pan(camera, input).refresh(),
            Step::ZoomTo(zoom_level) => self.zoom_to(zoom_level),
            Step::Rotate(rotation) => self.rotate(rotation),
            Step::LookAt(target) => self.look_at(target),
        }
    }

    /// The rig after a sequence of steps, taken in order.
    pub open spec fn after_all(self, steps: Seq<Step>) -> RigState
        decreases steps.len(),
    {
        if steps.len() == 0 {
            self
        } else {
            self.after_all(steps.drop_last()).after(steps.last())
        }
    }
}

/// A sequence of steps in which every angle set from outside is a 64-bit
/// number.
pub open spec fn angles_fit(steps: Seq<Step>) -> bool {
    forall|i: int|
        0 <= i < steps.len() ==> (#[trigger] steps[i] matches Step::Rotate(rotation) ==> i64::MIN
            <= rotation <= i64::MAX)
}

/// Zooming keeps a rig valid, whatever level is asked for: the level is
/// clamped to `[0, UNIT]`.
pub proof fn lemma_zoom_stays_in_range(rig: RigState, zoom_level: int)
    requires
        rig.valid(),
    ensures
        rig.zoom_to(zoom_level).valid(),
        0 <= rig.zoom_to(zoom_level).zoom_level <= UNIT,
        rig.change_zoom_to(zoom_level).valid(),
{
}

/// Zooming to the level that a rig is at changes nothing, so clamping twice
/// is clamping once.
pub proof fn lemma_zoom_clamps_once(rig: RigState, zoom_level: int)
    ensures
        rig.zoom_to(zoom_level).zoom_to(rig.zoom_to(zoom_level).zoom_level) == rig.zoom_to(
            zoom_level,
        ),
{
}

/// Aiming keeps the look-at point inside the bounds, however far outside
/// them the target lies.
pub proof fn lemma_look_at_stays_in_bounds(rig: RigState, target: Vector)
    requires
        rig.bounds.well_formed(),
    ensures
        rig.look_at(target).bounds.contains(rig.look_at(target).look_at),
        rig.bounds.contains(target) ==> rig.look_at(target).look_at == target,
{
    rig.bounds.lemma_clamped(target);
}

/// Setting other bounds brings the look-at point into them.
pub proof fn lemma_new_bounds_hold_look_at(rig: RigState, bounds: BoundingBox)
    requires
        bounds.well_formed(),
    ensures
        rig.set_bounding_box(bounds).bounds.contains(rig.set_bounding_box(bounds).look_at),
{
    bounds.lemma_clamped(rig.look_at);
}

/// Both halves of a frame keep a rig valid: the zoom level stays in
/// `[0, UNIT]` and the look-at point inside the bounds, whatever the input
/// and wherever the camera.
pub proof fn lemma_frame_keeps_valid(rig: RigState, camera: Vector, input: FrameInput)
    requires
        rig.valid(),
    ensures
        rig.steer(input).valid(),
        rig.steer(input).refresh().valid(),
        rig.pan(camera, input).valid(),
        rig.pan(camera, input).refresh().valid(),
{
    match rig.pan_target(camera, input) {
        Some(target) => {
            rig.bounds.lemma_clamped(target);
        },
        None => {},
    }
}

/// After any sequence of steps a valid rig is valid: its zoom level is in
/// `[0, UNIT]` and its look-at point inside its bounds.
pub proof fn lemma_steps_keep_valid(rig: RigState, steps: Seq<Step>)
    requires
        rig.valid(),
        angles_fit(steps),
    ensures
        rig.after_all(steps).valid(),
        0 <= rig.after_all(steps).zoom_level <= UNIT,
        rig.after_all(steps).bounds.contains(rig.after_all(steps).look_at),
        rig.after_all(steps).bounds == rig.bounds,
    decreases steps.len(),
{
    if steps.len() > 0 {
        let earlier = steps.drop_last();
        assert forall|i: int| 0 <= i < earlier.len() implies (#[trigger] earlier[i] matches Step::Rotate(
            rotation,
        ) ==> i64::MIN <= rotation <= i64::MAX) by {
            assert(earlier[i] == steps[i]);
        }
        lemma_steps_keep_valid(rig, earlier);
        let before = rig.after_all(earlier);
        match steps.last() {
            Step::Steer(input) => {
                lemma_frame_keeps_valid(before, Vector { x: 0, y: 0, z: 0 }, input);
            },
            Step::Pan(camera, input) => {
                lemma_frame_keeps_valid(before, camera, input);
            },
            Step::ZoomTo(zoom_level) => {},
            Step::Rotate(rotation) => {
                assert(steps[steps.len() - 1] == steps.last());
            },
            Step::LookAt(target) => {
                lemma_look_at_stays_in_bounds(before, target);
            },
        }
    }
}

/// A zoom step and a rotation step may be taken in either order: the rig
/// that results is the same, and so is its pose.
pub proof fn lemma_zoom_and_rotation_commute(rig: RigState, zoom_delta: int, rotation_delta: int)
    ensures
        rig.change_zoom_to(zoom_delta).change_rotation(rotation_delta) == rig.change_rotation(
            rotation_delta,
        ).change_zoom_to(zoom_delta),
        rig.zoom_to(zoom_delta).rotate(rotation_delta) == rig.rotate(rotation_delta).zoom_to(
            zoom_delta,
        ),
        rig.change_zoom_to(zoom_delta).change_rotation(rotation_delta).pose()
            == rig.change_rotation(rotation_delta).change_zoom_to(zoom_delta).pose(),
{
}

/// The pose of a rig is anchored at its look-at point plus the offset at
/// its zoom level, and carries its angle; turning the rig moves neither the
/// anchor nor the look-at point.
pub proof fn lemma_pose_anchor(rig: RigState, rotation: int)
    ensures
        rig.pose().anchor == rig.look_at.plus(rig.offset()),
        rig.pose().rotation == rig.rotation,
        rig.rotate(rotation).pose().anchor == rig.pose().anchor,
        rig.rotate(rotation).pose().look_at == rig.pose().look_at,
        rig.rotate(rotation).pose().rotation == rotation,
{
}

/// Zooming by a step and then by its opposite brings the zoom level back,
/// provided the first step does not run into either end of the range.
pub proof fn lemma_zoom_round_trip(rig: RigState, delta: int)
    requires
        rig.valid(),
        0 <= rig.zoom_level + delta <= UNIT,
    ensures
        rig.change_zoom_to(delta).change_zoom_to(-delta).zoom_level == rig.zoom_level,
        rig.change_zoom_to(delta).change_zoom_to(-delta).pose() == rig.pose(),
{
}

/// Two frames of the same length, the second zooming against the first,
/// bring the zoom level back, provided the first does not run into either
/// end of the range.
pub proof fn lemma_zoom_frames_round_trip(rig: RigState, there: FrameInput, back: FrameInput)
    requires
        rig.valid(),
        there.clamped_dt() == back.clamped_dt(),
        back.zoom_sign() == -there.zoom_sign(),
        0 <= rig.zoom_level + rig.zoom_step(there) <= UNIT,
    ensures
        rig.zoom_step(back) == -rig.zoom_step(there),
        rig.change_zoom_to(rig.zoom_step(there)).change_zoom_to(rig.zoom_step(back)).zoom_level
            == rig.zoom_level,
{
    let moved = distance(rig.speeds.zoom as int, there.clamped_dt() as int);
    assert(back.zoom_sign() * moved == -(there.zoom_sign() * moved)) by (nonlinear_arith)
        requires
            back.zoom_sign() == -there.zoom_sign(),
    ;
}

/// Turning by an angle and then by its opposite brings the angle and the
/// pose back, provided the first turn does not run into either end of the
/// 64-bit range.
pub proof fn lemma_rotation_round_trip(rig: RigState, theta: int)
    requires
        rig.valid(),
        i64::MIN <= rig.rotation + theta <= i64::MAX,
    ensures
        rig.change_rotation(theta).change_rotation(-theta).rotation == rig.rotation,
        rig.change_rotation(theta).change_rotation(-theta).pose() == rig.pose(),
{
}

/// A frame in which no time has passed changes nothing but the flag, which
/// the first half clears: a pose that was pending is worked out, none is
/// made up.
pub proof fn lemma_no_time_no_change(rig: RigState, camera: Vector, input: FrameInput)
    requires
        rig.valid(),
        input.dt == 0,
    ensures
        rig.steer(input) == rig,
        rig.pan(camera, input) == rig,
        rig.steer(input).refresh() == rig.refresh(),
        rig.steer(input).pending_pose() == rig.pending_pose(),
        !rig.dirty ==> rig.steer(input).refresh() == rig && rig.pan(camera, input).refresh() == rig,
{
    lemma_distance_bounds(rig.speeds.zoom as int, 0);
    lemma_distance_bounds(rig.speeds.rotation as int, 0);
    assert(rig.zoom_step(input) == 0) by (nonlinear_arith)
        requires
            rig.zoom_step(input) == input.zoom_sign() * distance(rig.speeds.zoom as int, 0),
            distance(rig.speeds.zoom as int, 0) == 0,
    ;
    assert(rig.rotation_step(input) == 0) by (nonlinear_arith)
        requires
            rig.rotation_step(input) == input.rotation_sign() * distance(
                rig.speeds.rotation as int,
                0,
            ),
            distance(rig.speeds.rotation as int, 0) == 0,
    ;
    lemma_still_pan(rig, camera, input);
}

/// A frame with no key held and the wheel at rest changes nothing but the
/// flag, however much time has passed.
pub proof fn lemma_no_input_no_change(rig: RigState, camera: Vector, input: FrameInput)
    requires
        rig.valid(),
        input.zoom_sign() == 0,
        input.rotation_sign() == 0,
        !input.wants_pan(),
    ensures
        rig.steer(input) == rig,
        rig.pan(camera, input) == rig,
{
    assert(rig.zoom_step(input) == 0) by (nonlinear_arith)
        requires
            rig.zoom_step(input) == input.zoom_sign() * distance(
                rig.speeds.zoom as int,
                input.clamped_dt() as int,
            ),
            input.zoom_sign() == 0,
    ;
    assert(rig.rotation_step(input) == 0) by (nonlinear_arith)
        requires
            rig.rotation_step(input) == input.rotation_sign() * distance(
                rig.speeds.rotation as int,
                input.clamped_dt() as int,
            ),
            input.rotation_sign() == 0,
    ;
}

/// In no time a pan moves nothing.
proof fn lemma_still_pan(rig: RigState, camera: Vector, input: FrameInput)
    requires
        rig.valid(),
        input.clamped_dt() == 0,
    ensures
        rig.pan(camera, input) == rig,
{
    assert forall|forward: int, right: int| #[trigger]
        pan_shift(forward, right, input, rig.speeds.pan as int) == 0 by {
        let along = forward * input.forward_sign() + right * input.right_sign();
        let scale = rig.speeds.pan * input.clamped_dt();
        assert(along * scale == 0) by (nonlinear_arith)
            requires
                scale == rig.speeds.pan * input.clamped_dt(),
                input.clamped_dt() == 0,
        ;
        assert(0int / (UNIT * crate::scalar::MICROS_PER_SECOND) == 0) by (nonlinear_arith)
            requires
                UNIT * crate::scalar::MICROS_PER_SECOND > 0,
        ;
    }
    match rig.pan_target(camera, input) {
        Some(target) => {
            assert(target == rig.look_at);
            rig.bounds.lemma_clamped(target);
        },
        None => {},
    }
}

} // verus!
