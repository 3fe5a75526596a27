//! Mouse-look: pointer deltas become a yaw/pitch orientation, with the
//! pitch clamped away from the straight-up and straight-down
//! singularities.

use vstd::prelude::*;
use crate::fx::clamp_spec;
use crate::input::CursorCaptureState;

verus! {

/// Pitch is clamped to about 72 degrees either way (a fifth of a full
/// turn, in micro-radians), strictly inside the gimbal singularity at a
/// quarter turn: at exactly a quarter turn the horizontal facing would
/// normalize a zero-length vector, so the margin must be preserved.
pub const PITCH_LIMIT: i64 = 1_256_637;

/// Radians of yaw or pitch per raw pointer count, in micro-radians: one
/// count turns the camera by a thousandth of a radian.
pub const DEFAULT_SENSITIVITY: i64 = 1_000;

/// Largest accepted pointer delta per tick, in raw counts.
pub const DELTA_LIMIT: i64 = 0x10_0000;

/// Largest accepted sensitivity, in micro-radians per count.
pub const SENS_LIMIT: i64 = 0x10_0000;

/// Largest accumulated angle magnitude accepted at a tick boundary;
/// leaves room for one more update below the 64-bit limit.
pub const ANGLE_LIMIT: i64 = 0x2000_0000_0000_0000;

/// Camera orientation in micro-radians: yaw about the world up-axis,
/// then pitch about the yawed local right-axis. The rotation it stands
/// for is `RotationY(yaw)` composed with `RotationX(pitch)`, in that
/// order.
#[derive(Clone, Copy, Debug, PartialEq, Eq, Structural)]
pub struct CameraOrientation {
    pub yaw: i64,
    pub pitch: i64,
}

/// The mathematical value of a `CameraOrientation`.
pub ghost struct OrientM {
    pub yaw: int,
    pub pitch: int,
}

impl View for CameraOrientation {
    type V = OrientM;

    open spec fn view(&self) -> OrientM {
        OrientM { yaw: self.yaw as int, pitch: self.pitch as int }
    }
}

/// The pitch stays inside the clamp range.
pub open spec fn orient_wf(o: OrientM) -> bool {
    -PITCH_LIMIT <= o.pitch <= PITCH_LIMIT
}

/// The orientation after one tick: while captured, the pointer delta
/// turns the camera against the pointer direction, scaled by the
/// sensitivity, and the new pitch is clamped; while released, the delta
/// is discarded, not buffered.
pub open spec fn orient_next(
    o: OrientM,
    mode: CursorCaptureState,
    dx: int,
    dy: int,
    sensitivity: int,
) -> OrientM {
    match mode {
        CursorCaptureState::Released => o,
        CursorCaptureState::Captured => OrientM {
            yaw: o.yaw - dx * sensitivity,
            pitch: clamp_spec(o.pitch - dy * sensitivity, -PITCH_LIMIT as int, PITCH_LIMIT as int),
        },
    }
}

impl CameraOrientation {
    /// A level camera looking along its initial facing.
    pub fn level() -> (r: CameraOrientation)
        ensures
            r@ == (OrientM { yaw: 0, pitch: 0 }),
            orient_wf(r@),
    {
        CameraOrientation { yaw: 0, pitch: 0 }
    }

    /// Applies this tick's pointer delta. Whatever the delta's magnitude
    /// or sign, an update made while captured leaves the pitch inside
    /// the clamp range; an update made while released changes nothing.
    pub fn update(
        &mut self,
        mode: CursorCaptureState,
        dx: i64,
        dy: i64,
        sensitivity: i64,
    )
        requires
            -DELTA_LIMIT <= dx <= DELTA_LIMIT,
            -DELTA_LIMIT <= dy <= DELTA_LIMIT,
            0 <= sensitivity <= SENS_LIMIT,
            -ANGLE_LIMIT <= old(self).yaw <= ANGLE_LIMIT,
            -ANGLE_LIMIT <= old(self).pitch <= ANGLE_LIMIT,
        ensures
            final(self)@ == orient_next(old(self)@, mode, dx as int, dy as int, sensitivity as int),
            mode is Captured ==> orient_wf(final(self)@),
            orient_wf(old(self)@) ==> orient_wf(final(self)@),
            mode is Released ==> final(self)@ == old(self)@,
    {
        match mode {
            CursorCaptureState::Released => {},
            CursorCaptureState::Captured => {
                proof {
                    assert(-0x100_0000_0000 <= dx * sensitivity <= 0x100_0000_0000)
                        by (nonlinear_arith)
                        requires
                            -0x10_0000 <= dx <= 0x10_0000,
                            0 <= sensitivity <= 0x10_0000,
                    ;
                    assert(-0x100_0000_0000 <= dy * sensitivity <= 0x100_0000_0000)
                        by (nonlinear_arith)
                        requires
                            -0x10_0000 <= dy <= 0x10_0000,
                            0 <= sensitivity <= 0x10_0000,
                    ;
                }
                self.yaw = self.yaw - dx * sensitivity;
                let raw_pitch = self.pitch - dy * sensitivity;
                self.pitch = crate::fx::clamp_i64(raw_pitch, -PITCH_LIMIT, PITCH_LIMIT);
            },
        }
    }
}

} // verus!
