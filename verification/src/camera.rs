//! The camera rig: a look-at point kept inside a box, a zoom level on a
//! curve of offsets, an angle about the up axis, and a flag that tells when
//! the pose has to be worked out again.
//!
//! The rig decides where the camera is anchored and how far it is turned.
//! Turning the anchor about the look-at point and aiming the camera is left
//! to the renderer, which hands the turned position back when the rig pans.

use vstd::prelude::*;
use crate::bounding_box::BoundingBox;
use crate::curve::interpolate;
use crate::curve::offset_at;
use crate::heading::heading;
use crate::heading::heading_toward;
use crate::input::distance;
use crate::input::step;
use crate::input::FrameInput;
use crate::scalar::clamp;
use crate::scalar::clamp_i128;
use crate::scalar::div_toward_zero;
use crate::scalar::lemma_div_toward_zero_bound;
use crate::scalar::quotient;
use crate::scalar::MICROS_PER_SECOND;
use crate::scalar::UNIT;
use crate::vec3::Position;
use crate::vec3::Vec3;
use crate::vec3::Vector;
use crate::vec3::POSITION_LIMIT;

verus! {

/// How fast a rig moves while a key is held or the wheel turns.
#[derive(Clone, Copy, Debug, PartialEq, Eq, Structural)]
pub struct Speeds {
    /// Millionths of the zoom range per second.
    pub zoom: u32,
    /// Millionths of a radian per second.
    pub rotation: u32,
    /// World units per second.
    pub pan: u32,
}

impl Default for Speeds {
    /// A tenth of the zoom range, eight tenths of a radian and 200 world
    /// units per second.
    fn default() -> (speeds: Self)
        ensures
            speeds == (Speeds { zoom: 100_000, rotation: 800_000, pan: 200 }),
    {
        Speeds { zoom: 100_000, rotation: 800_000, pan: 200 }
    }
}

/// Why a rig refused a frame.
#[derive(Clone, Copy, Debug, PartialEq, Eq, Structural)]
pub enum RigError {
    /// The zoom curve has fewer than two offsets: there is no pose to work
    /// out.
    Configuration,
    /// The elapsed time is negative, or the camera position is out of range.
    InvalidInput,
}

/// A pose in mathematical integers.
pub struct PoseView {
    pub anchor: Vector,
    pub look_at: Vector,
    pub up: Vector,
    pub rotation: int,
}

/// Where the camera belongs. It stands at `anchor` turned about `look_at` by
/// `rotation` millionths of a radian around the axis `up`, and from there
/// looks at `look_at` with `up` upward.
#[derive(Clone, Copy, Debug, PartialEq, Eq, Structural)]
pub struct Pose {
    pub anchor: Position,
    pub look_at: Vec3,
    pub up: Vec3,
    pub rotation: i64,
}

impl View for Pose {
    type V = PoseView;

    open spec fn view(&self) -> PoseView {
        PoseView {
            anchor: self.anchor@,
            look_at: self.look_at@,
            up: self.up@,
            rotation: self.rotation as int,
        }
    }
}

/// The view of a pose that may be absent.
pub open spec fn shown(pose: Option<Pose>) -> Option<PoseView> {
    match pose {
        Some(p) => Some(p@),
        None => None,
    }
}

/// What `update` hands back.
#[derive(Clone, Copy, Debug, PartialEq, Eq, Structural)]
pub struct Frame {
    /// The new pose, where the frame or an earlier change called for one.
    pub pose: Option<Pose>,
    /// Whether the keys ask for a pan, which `pan` carries out once the
    /// camera stands where `pose` puts it.
    pub pan_requested: bool,
}

/// How far a pan moves the look-at point along one axis: the sum of the
/// forward and right directions that the keys select, times the pan speed
/// and the clamped time, rounded toward zero.
pub open spec fn pan_shift(forward: int, right: int, input: FrameInput, speed: int) -> int {
    div_toward_zero(
        (forward * input.forward_sign() + right * input.right_sign()) * (speed
            * input.clamped_dt()),
        UNIT * MICROS_PER_SECOND,
    )
}

/// A rig as a mathematical value.
pub struct RigState {
    /// Place on the zoom curve, in millionths: 0 is the nearest offset,
    /// `UNIT` the farthest.
    pub zoom_level: int,
    /// The zoom curve, from near to far.
    pub offsets: Seq<Vec3>,
    pub look_at: Vector,
    /// Angle about `up`, in millionths of a radian.
    pub rotation: int,
    pub up: Vector,
    pub bounds: BoundingBox,
    pub speeds: Speeds,
    /// Whether anything that the pose depends on has changed since the pose
    /// was last worked out.
    pub dirty: bool,
}

impl RigState {
    /// What holds of every rig: the zoom level is in `[0, UNIT]` and the
    /// look-at point is inside the bounds.
    pub open spec fn valid(self) -> bool {
        &&& 0 <= self.zoom_level <= UNIT
        &&& i64::MIN <= self.rotation <= i64::MAX
        &&& self.bounds.well_formed()
        &&& self.bounds.contains(self.look_at)
    }

    /// The rig zoomed to `zoom_level`, clamped to `[0, UNIT]`.
    pub open spec fn zoom_to(self, zoom_level: int) -> RigState {
        let level = clamp(zoom_level, 0, UNIT as int);
        RigState { zoom_level: level, dirty: self.dirty || level != self.zoom_level, ..self }
    }

    /// The rig zoomed by `delta`.
    pub open spec fn change_zoom_to(self, delta: int) -> RigState {
        self.zoom_to(self.zoom_level + delta)
    }

    /// The rig turned to `rotation`.
    pub open spec fn rotate(self, rotation: int) -> RigState {
        RigState { rotation, dirty: self.dirty || rotation != self.rotation, ..self }
    }

    /// The rig turned by `delta`. The angle stops at the ends of the 64-bit
    /// range.
    pub open spec fn change_rotation(self, delta: int) -> RigState {
        self.rotate(clamp(self.rotation + delta, i64::MIN as int, i64::MAX as int))
    }

    /// The rig aimed at `target`, clamped into the bounds.
    pub open spec fn look_at(self, target: Vector) -> RigState {
        let point = self.bounds.clamped(target);
        RigState { look_at: point, dirty: self.dirty || point != self.look_at, ..self }
    }

    /// The rig with another up axis.
    pub open spec fn set_up(self, up: Vector) -> RigState {
        RigState { up, dirty: self.dirty || up != self.up, ..self }
    }

    /// The rig with other bounds, its look-at point clamped into them.
    pub open spec fn set_bounding_box(self, bounds: BoundingBox) -> RigState {
        let point = bounds.clamped(self.look_at);
        RigState { bounds, look_at: point, dirty: self.dirty || point != self.look_at, ..self }
    }

    /// The rig with one more offset at the far end of its curve.
    pub open spec fn add_zoom_level_offset(self, offset: Vec3) -> RigState {
        RigState { offsets: self.offsets.push(offset), ..self }
    }

    /// The rig with other speeds.
    pub open spec fn set_speeds(self, speeds: Speeds) -> RigState {
        RigState { speeds, ..self }
    }

    /// The camera's offset from the look-at point at the current zoom level.
    pub open spec fn offset(self) -> Vector {
        interpolate(self.offsets, self.zoom_level)
    }

    /// The pose of the rig: anchored at the look-at point plus the
    /// interpolated offset, turned by the rig's angle about its up axis.
    pub open spec fn pose(self) -> PoseView {
        PoseView {
            anchor: self.look_at.plus(self.offset()),
            look_at: self.look_at,
            up: self.up,
            rotation: self.rotation,
        }
    }

    /// The pose if it has to be worked out again, else nothing.
    pub open spec fn pending_pose(self) -> Option<PoseView> {
        if self.dirty {
            Some(self.pose())
        } else {
            None
        }
    }

    /// The rig with its pose up to date.
    pub open spec fn refresh(self) -> RigState {
        RigState { dirty: false, ..self }
    }

    /// The zoom step of a frame.
    pub open spec fn zoom_step(self, input: FrameInput) -> int {
        input.zoom_sign() * distance(self.speeds.zoom as int, input.clamped_dt() as int)
    }

    /// The rotation step of a frame.
    pub open spec fn rotation_step(self, input: FrameInput) -> int {
        input.rotation_sign() * distance(self.speeds.rotation as int, input.clamped_dt() as int)
    }

    /// The rig after the zoom and rotation steps of a frame, before its pose
    /// is worked out.
    pub open spec fn steer(self, input: FrameInput) -> RigState {
        self.change_zoom_to(self.zoom_step(input)).change_rotation(self.rotation_step(input))
    }

    /// Where a pan moves the look-at point to, before clamping, for a camera
    /// that stands at `camera`. `None` where the keys ask for no pan or the
    /// camera has no heading: the look-at point then stays.
    pub open spec fn pan_target(self, camera: Vector, input: FrameInput) -> Option<Vector> {
        if input.wants_pan() {
            match heading(self.look_at, camera, self.up) {
                Some(found) => Some(
                    Vector {
                        x: self.look_at.x + pan_shift(
                            found.forward.x,
                            found.right.x,
                            input,
                            self.speeds.pan as int,
                        ),
                        y: self.look_at.y + pan_shift(
                            found.forward.y,
                            found.right.y,
                            input,
                            self.speeds.pan as int,
                        ),
                        z: self.look_at.z + pan_shift(
                            found.forward.z,
                            found.right.z,
                            input,
                            self.speeds.pan as int,
                        ),
                    },
                ),
                None => None,
            }
        } else {
            None
        }
    }

    /// The rig after the pan of a frame, before its pose is worked out.
    pub open spec fn pan(self, camera: Vector, input: FrameInput) -> RigState {
        match self.pan_target(camera, input) {
            Some(target) => self.look_at(target),
            None => self,
        }
    }
}

/// `value` taken forward, backward or not at all.
fn directed(direction: i64, value: i64) -> (r: i128)
    requires
        -1 <= direction <= 1,
    ensures
        r == direction * value,
        r == if direction < 0 {
            -value
        } else if direction > 0 {
            value as int
        } else {
            0
        },
{
    assert(direction * value == (if direction < 0 {
        -value
    } else if direction > 0 {
        value as int
    } else {
        0
    })) by (nonlinear_arith)
        requires
            -1 <= direction <= 1,
    ;
    if direction < 0 {
        -(value as i128)
    } else if direction > 0 {
        value as i128
    } else {
        0
    }
}

/// How far a pan moves the look-at point along one axis.
fn shift(forward: i32, right: i32, input: &FrameInput, speed: u32) -> (r: i128)
    requires
        -UNIT <= forward <= UNIT,
        -UNIT <= right <= UNIT,
    ensures
        r == pan_shift(forward as int, right as int, *input, speed as int),
        -0x1_0000_0000_0000_0000_0000 <= r <= 0x1_0000_0000_0000_0000_0000,
{
    let along: i128 = directed(input.forward_direction(), forward as i64) + directed(
        input.right_direction(),
        right as i64,
    );
    let dt: i64 = input.clamped_dt();
    assert(0 <= speed * dt <= 0xffff_ffff * 1_000_000) by (nonlinear_arith)
        requires
            0 <= speed <= 0xffff_ffff,
            0 <= dt <= 1_000_000,
    ;
    let scale: i128 = speed as i128 * dt as i128;
    assert(-(2_000_000 * (0xffff_ffff * 1_000_000)) <= along * scale <= 2_000_000 * (0xffff_ffff
        * 1_000_000)) by (nonlinear_arith)
        requires
            -2_000_000 <= along <= 2_000_000,
            0 <= scale <= 0xffff_ffff * 1_000_000,
    ;
    let whole: i128 = 1_000_000_000_000;
    assert(whole == UNIT * MICROS_PER_SECOND) by (nonlinear_arith)
        requires
            whole == 1_000_000_000_000,
            UNIT == 1_000_000,
            MICROS_PER_SECOND == 1_000_000,
    ;
    proof {
        let most: int = 2_000_000int * (0xffff_ffffint * 1_000_000int);
        assert(most <= most * whole) by (nonlinear_arith)
            requires
                most >= 0,
                whole >= 1,
        ;
        lemma_div_toward_zero_bound(along * scale, whole as int, most);
        assert(forward * input.forward_sign() + right * input.right_sign() == along) by (nonlinear_arith)
            requires
                along == input.forward_sign() * forward + input.right_sign() * right,
        ;
    }
    quotient(along * scale, whole)
}

/// A zoom level within `[0, UNIT]`.
#[derive(Debug)]
struct ZoomLevel {
    value: i64,
}

impl ZoomLevel {
    #[verifier::type_invariant]
    spec fn in_range(self) -> bool {
        0 <= self.value <= UNIT
    }
}

/// A look-at point with the box that it is kept in.
#[derive(Debug)]
struct Aim {
    bounds: BoundingBox,
    point: Vec3,
}

impl Aim {
    #[verifier::type_invariant]
    spec fn inside(self) -> bool {
        self.bounds.contains(self.point@)
    }
}

/// A camera rig.
#[derive(Debug)]
pub struct CameraTarget {
    /// place on the zoom curve, from 0 to `UNIT`
    zoom_level: ZoomLevel,
    /// offsets of the camera from the look-at point, from near to far
    zoom_level_offsets: Vec<Vec3>,
    /// the point the camera looks at, and the box it stays in
    aim: Aim,
    /// angle about the up axis, in millionths of a radian
    rotation: i64,
    /// the direction that is up for the camera
    up: Vec3,
    speeds: Speeds,
    /// true when the zoom level, the look-at point, the angle or the up axis
    /// changed since the pose was last worked out
    is_dirty: bool,
}

impl View for CameraTarget {
    type V = RigState;

    closed spec fn view(&self) -> RigState {
        RigState {
            zoom_level: self.zoom_level.value as int,
            offsets: self.zoom_level_offsets@,
            look_at: self.aim.point@,
            rotation: self.rotation as int,
            up: self.up@,
            bounds: self.aim.bounds,
            speeds: self.speeds,
            dirty: self.is_dirty,
        }
    }
}

impl Default for CameraTarget {
    /// A rig at the origin with the y axis up, zoomed in all the way, not
    /// turned, unbounded, with no offsets yet and its pose still to be worked
    /// out.
    fn default() -> (rig: Self)
        ensures
            rig@.zoom_level == 0,
            rig@.offsets == Seq::<Vec3>::empty(),
            rig@.look_at == (Vector { x: 0, y: 0, z: 0 }),
            rig@.rotation == 0,
            rig@.up == (Vector { x: 0, y: 1, z: 0 }),
            rig@.bounds.min_corner() == (Vec3 { x: i32::MIN, y: i32::MIN, z: i32::MIN }),
            rig@.bounds.max_corner() == (Vec3 { x: i32::MAX, y: i32::MAX, z: i32::MAX }),
            rig@.speeds == (Speeds { zoom: 100_000, rotation: 800_000, pan: 200 }),
            rig@.dirty,
            rig@.valid(),
    {
        let bounds = BoundingBox::default();
        CameraTarget {
            zoom_level: ZoomLevel { value: 0 },
            zoom_level_offsets: Vec::new(),
            aim: Aim { bounds, point: Vec3 { x: 0, y: 0, z: 0 } },
            rotation: 0,
            up: Vec3 { x: 0, y: 1, z: 0 },
            speeds: Speeds { zoom: 100_000, rotation: 800_000, pan: 200 },
            is_dirty: true,
        }
    }
}

impl CameraTarget {
    /// The first half of a frame. Takes the zoom step and the rotation step
    /// that the wheel and the keys ask for, each scaled by its speed and by
    /// the elapsed time, of which no more than a second counts; then works
    /// out the pose if anything has changed. The pan, whose direction depends
    /// on where the camera stands after this, is left to `pan`.
    ///
    /// Fails, and changes nothing, on a curve of fewer than two offsets and on
    /// a negative elapsed time.
    pub fn update(&mut self, input: &FrameInput) -> (result: Result<Frame, RigError>)
        ensures
            match result {
                Ok(frame) => {
                    &&& old(self)@.offsets.len() >= 2
                    &&& input.dt >= 0
                    &&& final(self)@ == old(self)@.steer(*input).refresh()
                    &&& shown(frame.pose) == old(self)@.steer(*input).pending_pose()
                    &&& frame.pan_requested == input.wants_pan()
                },
                Err(e) => {
                    &&& old(self)@.offsets.len() < 2 || input.dt < 0
                    &&& final(self)@ == old(self)@
                    &&& e == if old(self)@.offsets.len() < 2 {
                        RigError::Configuration
                    } else {
                        RigError::InvalidInput
                    }
                },
            },
            final(self)@.valid(),
    {
        proof {
            use_type_invariant(&self.zoom_level);
            use_type_invariant(&self.aim);
            use_type_invariant(&self.aim.bounds);
        }
        if self.zoom_level_offsets.len() < 2 {
            return Err(RigError::Configuration);
        }
        if input.dt < 0 {
            return Err(RigError::InvalidInput);
        }
        let dt: i64 = input.clamped_dt();
        let zoom_step: i128 = directed(input.zoom_direction(), step(self.speeds.zoom, dt));
        let rotation_step: i128 = directed(
            input.rotation_direction(),
            step(self.speeds.rotation, dt),
        );
        self.change_zoom_to(zoom_step as i64);
        self.change_rotation(rotation_step as i64);
        match self.update_transform() {
            Ok(pose) => Ok(Frame { pose, pan_requested: input.wants_pan() }),
            Err(e) => Err(e),
        }
    }

    /// The second half of a frame, for a camera that stands at `camera`.
    /// Where the keys ask for a pan, moves the look-at point along the
    /// camera's heading: forward is the direction from the camera to the
    /// look-at point within the plane orthogonal to the up axis, right is
    /// forward turned a quarter turn about the up axis. The new look-at point
    /// is clamped into the bounds. Then works out the pose if anything has
    /// changed.
    ///
    /// A camera without a heading (straight above or below the look-at point,
    /// or with a zero up axis) does not pan.
    ///
    /// Fails, and changes nothing, on a curve of fewer than two offsets, on a
    /// negative elapsed time and on a camera farther than `POSITION_LIMIT`
    /// from the origin along an axis.
    pub fn pan(&mut self, camera: Position, input: &FrameInput) -> (result: Result<
        Option<Pose>,
        RigError,
    >)
        ensures
            match result {
                Ok(pose) => {
                    &&& old(self)@.offsets.len() >= 2
                    &&& input.dt >= 0
                    &&& camera@.within(POSITION_LIMIT as int)
                    &&& final(self)@ == old(self)@.pan(camera@, *input).refresh()
                    &&& shown(pose) == old(self)@.pan(camera@, *input).pending_pose()
                },
                Err(e) => {
                    &&& old(self)@.offsets.len() < 2 || input.dt < 0 || !camera@.within(
                        POSITION_LIMIT as int,
                    )
                    &&& final(self)@ == old(self)@
                    &&& e == if old(self)@.offsets.len() < 2 {
                        RigError::Configuration
                    } else {
                        RigError::InvalidInput
                    }
                },
            },
            final(self)@.valid(),
    {
        proof {
            use_type_invariant(&self.zoom_level);
            use_type_invariant(&self.aim);
            use_type_invariant(&self.aim.bounds);
        }
        if self.zoom_level_offsets.len() < 2 {
            return Err(RigError::Configuration);
        }
        if input.dt < 0 || !camera.in_range() {
            return Err(RigError::InvalidInput);
        }
        if input.wants_pan() {
            let look_at: Vec3 = self.aim.point;
            match heading_toward(look_at, camera, self.up) {
                Some(found) => {
                    let pan: u32 = self.speeds.pan;
                    let x: i128 = look_at.x as i128 + shift(
                        found.forward.x,
                        found.right.x,
                        input,
                        pan,
                    );
                    let y: i128 = look_at.y as i128 + shift(
                        found.forward.y,
                        found.right.y,
                        input,
                        pan,
                    );
                    let z: i128 = look_at.z as i128 + shift(
                        found.forward.z,
                        found.right.z,
                        input,
                        pan,
                    );
                    self.look_at_wide(x, y, z);
                },
                None => {},
            }
        }
        self.update_transform()
    }

    /// Works out the pose if anything it depends on has changed since it
    /// was last worked out, and hands it back; hands back nothing if the pose
    /// is up to date. Fails, and changes nothing, on a curve of fewer than
    /// two offsets.
    pub fn update_transform(&mut self) -> (result: Result<Option<Pose>, RigError>)
        ensures
            match result {
                Ok(pose) => {
                    &&& old(self)@.offsets.len() >= 2
                    &&& final(self)@ == old(self)@.refresh()
                    &&& shown(pose) == old(self)@.pending_pose()
                },
                Err(e) => {
                    &&& old(self)@.offsets.len() < 2
                    &&& final(self)@ == old(self)@
                    &&& e == RigError::Configuration
                },
            },
            final(self)@.valid(),
    {
        proof {
            use_type_invariant(&self.zoom_level);
            use_type_invariant(&self.aim);
            use_type_invariant(&self.aim.bounds);
        }
        if self.zoom_level_offsets.len() < 2 {
            return Err(RigError::Configuration);
        }
        if self.is_dirty {
            let offset = offset_at(&self.zoom_level_offsets, self.zoom_level.value);
            let pose = Pose {
                anchor: Position::offset_from(self.aim.point, offset),
                look_at: self.aim.point,
                up: self.up,
                rotation: self.rotation,
            };
            self.is_dirty = false;
            Ok(Some(pose))
        } else {
            Ok(None)
        }
    }

    /// Moves the zoom level by `delta_zoom_level`, staying within
    /// `[0, UNIT]`.
    pub fn change_zoom_to(&mut self, delta_zoom_level: i64)
        ensures
            final(self)@ == old(self)@.change_zoom_to(delta_zoom_level as int),
            final(self)@.valid(),
    {
        let level: i128 = clamp_i128(
            self.zoom_level.value as i128 + delta_zoom_level as i128,
            0,
            UNIT as i128,
        );
        self.zoom_to(level as i64)
    }

    /// Sets the zoom level, clamped to `[0, UNIT]`. The rig becomes dirty if
    /// the level changes.
    pub fn zoom_to(&mut self, zoom_level: i64)
        ensures
            final(self)@ == old(self)@.zoom_to(zoom_level as int),
            final(self)@.valid(),
    {
        let old_zoom_level = self.zoom_level.value;
        let level: i64 = if zoom_level < 0 {
            0
        } else if zoom_level > UNIT {
            UNIT
        } else {
            zoom_level
        };
        if old_zoom_level != level {
            self.is_dirty = true;
        }
        self.zoom_level = ZoomLevel { value: level };
        proof {
            use_type_invariant(&self.aim);
            use_type_invariant(&self.aim.bounds);
        }
    }

    /// The rig, zoomed to `zoom_level`.
    pub fn zooming_to(self, zoom_level: i64) -> (rig: Self)
        ensures
            rig@ == self@.zoom_to(zoom_level as int),
            rig@.valid(),
    {
        let mut rig = self;
        rig.zoom_to(zoom_level);
        rig
    }

    /// The place on the zoom curve, in millionths.
    pub fn get_zoom_level(&self) -> (zoom_level: i64)
        ensures
            zoom_level == self@.zoom_level,
            0 <= zoom_level <= UNIT,
    {
        proof {
            use_type_invariant(&self.zoom_level);
        }
        self.zoom_level.value
    }

    /// The point the camera looks at.
    pub fn get_look_at(&self) -> (look_at: Vec3)
        ensures
            look_at@ == self@.look_at,
            self@.bounds.contains(look_at@),
    {
        proof {
            use_type_invariant(&self.aim);
        }
        self.aim.point
    }

    /// Aims the rig at `look_at`, clamped into the bounds. The rig becomes
    /// dirty if the look-at point changes.
    pub fn look_at(&mut self, look_at: Vec3)
        ensures
            final(self)@ == old(self)@.look_at(look_at@),
            final(self)@.valid(),
    {
        self.look_at_wide(look_at.x as i128, look_at.y as i128, look_at.z as i128)
    }

    /// As `look_at`, for a target whose coordinates may lie far outside the
    /// range of a `Vec3`.
    fn look_at_wide(&mut self, x: i128, y: i128, z: i128)
        ensures
            final(self)@ == old(self)@.look_at(Vector { x: x as int, y: y as int, z: z as int }),
            final(self)@.valid(),
    {
        let old_look_at = self.aim.point;
        let bounds = self.aim.bounds;
        let point = bounds.clamp_wide(x, y, z);
        if old_look_at != point {
            self.is_dirty = true;
        }
        self.aim = Aim { bounds, point };
        proof {
            use_type_invariant(&self.zoom_level);
            use_type_invariant(&self.aim.bounds);
        }
    }

    /// The rig, aimed at `look_at`.
    pub fn looking_at(self, look_at: Vec3) -> (rig: CameraTarget)
        ensures
            rig@ == self@.look_at(look_at@),
            rig@.valid(),
    {
        let mut rig = self;
        rig.look_at(look_at);
        rig
    }

    /// Turns the rig by `delta_rotation`. The angle stops at the ends of the
    /// 64-bit range.
    pub fn change_rotation(&mut self, delta_rotation: i64)
        ensures
            final(self)@ == old(self)@.change_rotation(delta_rotation as int),
            final(self)@.valid(),
    {
        let rotation: i128 = clamp_i128(
            self.rotation as i128 + delta_rotation as i128,
            i64::MIN as i128,
            i64::MAX as i128,
        );
        self.rotate(rotation as i64)
    }

    /// Sets the angle. The rig becomes dirty if the angle changes.
    pub fn rotate(&mut self, rotation: i64)
        ensures
            final(self)@ == old(self)@.rotate(rotation as int),
            final(self)@.valid(),
    {
        let old_rotation = self.rotation;
        if old_rotation != rotation {
            self.is_dirty = true;
        }
        self.rotation = rotation;
        proof {
            use_type_invariant(&self.zoom_level);
            use_type_invariant(&self.aim);
            use_type_invariant(&self.aim.bounds);
        }
    }

    /// The rig, turned to `rotation`.
    pub fn rotating(self, rotation: i64) -> (rig: Self)
        ensures
            rig@ == self@.rotate(rotation as int),
            rig@.valid(),
    {
        let mut rig = self;
        rig.rotate(rotation);
        rig
    }

    /// The angle about the up axis, in millionths of a radian.
    pub fn get_rotation(&self) -> (rotation: i64)
        ensures
            rotation == self@.rotation,
    {
        self.rotation
    }

    /// The direction that is up for the camera.
    pub fn get_up(&self) -> (up: Vec3)
        ensures
            up@ == self@.up,
    {
        self.up
    }

    /// Sets the up axis. The rig becomes dirty if the axis changes.
    pub fn set_up(&mut self, up: Vec3)
        ensures
            final(self)@ == old(self)@.set_up(up@),
            final(self)@.valid(),
    {
        let old_up = self.up;
        if old_up != up {
            self.is_dirty = true;
        }
        self.up = up;
        proof {
            use_type_invariant(&self.zoom_level);
            use_type_invariant(&self.aim);
            use_type_invariant(&self.aim.bounds);
        }
    }

    /// The rig, with `up` as its up axis.
    pub fn with_up(self, up: Vec3) -> (rig: Self)
        ensures
            rig@ == self@.set_up(up@),
            rig@.valid(),
    {
        let mut rig = self;
        rig.set_up(up);
        rig
    }

    /// The box that the look-at point is kept in.
    pub fn get_bounding_box(&self) -> (bounds: BoundingBox)
        ensures
            bounds == self@.bounds,
            bounds.well_formed(),
    {
        proof {
            use_type_invariant(&self.aim.bounds);
        }
        self.aim.bounds
    }

    /// Sets the box that the look-at point is kept in, and brings the
    /// look-at point into it. The rig becomes dirty if that moves the look-at
    /// point.
    pub fn set_bounding_box(&mut self, bounding_box: BoundingBox)
        ensures
            final(self)@ == old(self)@.set_bounding_box(bounding_box),
            final(self)@.valid(),
    {
        let old_look_at = self.aim.point;
        let point = bounding_box.clamp(old_look_at);
        if old_look_at != point {
            self.is_dirty = true;
        }
        self.aim = Aim { bounds: bounding_box, point };
        proof {
            use_type_invariant(&self.zoom_level);
            use_type_invariant(&self.aim.bounds);
        }
    }

    /// The rig, kept in `bounding_box`.
    pub fn with_bounding_box(self, bounding_box: BoundingBox) -> (rig: Self)
        ensures
            rig@ == self@.set_bounding_box(bounding_box),
            rig@.valid(),
    {
        let mut rig = self;
        rig.set_bounding_box(bounding_box);
        rig
    }

    /// Appends an offset at the far end of the zoom curve. The flag is left
    /// as it is: the curve is laid out before the first frame.
    pub fn add_zoom_level_offset(&mut self, zoom_level_offset: Vec3)
        ensures
            final(self)@ == old(self)@.add_zoom_level_offset(zoom_level_offset),
            final(self)@.valid(),
    {
        self.zoom_level_offsets.push(zoom_level_offset);
        proof {
            use_type_invariant(&self.zoom_level);
            use_type_invariant(&self.aim);
            use_type_invariant(&self.aim.bounds);
        }
    }

    /// The rig, with one more offset at the far end of its zoom curve.
    pub fn with_zoom_level_offset(self, zoom_level_offset: Vec3) -> (rig: Self)
        ensures
            rig@ == self@.add_zoom_level_offset(zoom_level_offset),
            rig@.valid(),
    {
        let mut rig = self;
        rig.add_zoom_level_offset(zoom_level_offset);
        rig
    }

    /// How fast the rig zooms, turns and pans.
    pub fn get_speeds(&self) -> (speeds: Speeds)
        ensures
            speeds == self@.speeds,
    {
        self.speeds
    }

    /// Sets how fast the rig zooms, turns and pans. The pose does not depend
    /// on the speeds, so the flag is left as it is.
    pub fn set_speeds(&mut self, speeds: Speeds)
        ensures
            final(self)@ == old(self)@.set_speeds(speeds),
            final(self)@.valid(),
    {
        self.speeds = speeds;
        proof {
            use_type_invariant(&self.zoom_level);
            use_type_invariant(&self.aim);
            use_type_invariant(&self.aim.bounds);
        }
    }

    /// The rig, moving at `speeds`.
    pub fn with_speeds(self, speeds: Speeds) -> (rig: Self)
        ensures
            rig@ == self@.set_speeds(speeds),
            rig@.valid(),
    {
        let mut rig = self;
        rig.set_speeds(speeds);
        rig
    }

    /// Whether the pose has to be worked out again.
    pub fn is_dirty(&self) -> (dirty: bool)
        ensures
            dirty == self@.dirty,
    {
        self.is_dirty
    }

    /// The number of offsets on the zoom curve.
    pub fn zoom_level_count(&self) -> (count: usize)
        ensures
            count == self@.offsets.len(),
    {
        self.zoom_level_offsets.len()
    }
}

} // verus!
