//! Per-tick input samples and the pointer-capture state machine.

use vstd::prelude::*;

verus! {

/// Whether pointer motion is routed to orientation control (`Captured`)
/// or to the surrounding surface (`Released`).
#[derive(Clone, Copy, Debug, PartialEq, Eq, Structural)]
pub enum CursorCaptureState {
    Captured,
    Released,
}

/// Everything the controller reads from the input source in one tick:
/// the accumulated pointer delta (in raw counts), the held movement and
/// jump keys, and the just-pressed capture and release gestures.
#[derive(Clone, Copy, Debug, PartialEq, Eq, Structural)]
pub struct Input {
    /// Accumulated pointer motion for the tick, in raw counts.
    pub dx: i64,
    pub dy: i64,
    /// Held movement keys.
    pub forward_held: bool,
    pub back_held: bool,
    pub left_held: bool,
    pub right_held: bool,
    /// The jump key is currently held (edges are derived across ticks).
    pub jump_held: bool,
    /// The capture gesture (e.g. a primary pointer press) was just made.
    pub capture_pressed: bool,
    /// The release key (e.g. escape) was just pressed.
    pub release_pressed: bool,
}

/// The mathematical value of an `Input`.
pub ghost struct InputM {
    pub dx: int,
    pub dy: int,
    pub forward_held: bool,
    pub back_held: bool,
    pub left_held: bool,
    pub right_held: bool,
    pub jump_held: bool,
    pub capture_pressed: bool,
    pub release_pressed: bool,
}

impl View for Input {
    type V = InputM;

    open spec fn view(&self) -> InputM {
        InputM {
            dx: self.dx as int,
            dy: self.dy as int,
            forward_held: self.forward_held,
            back_held: self.back_held,
            left_held: self.left_held,
            right_held: self.right_held,
            jump_held: self.jump_held,
            capture_pressed: self.capture_pressed,
            release_pressed: self.release_pressed,
        }
    }
}

impl Input {
    /// A tick in which no key is held and the pointer did not move.
    pub fn idle() -> (r: Input)
        ensures
            r@ == idle_input(),
    {
        Input {
            dx: 0,
            dy: 0,
            forward_held: false,
            back_held: false,
            left_held: false,
            right_held: false,
            jump_held: false,
            capture_pressed: false,
            release_pressed: false,
        }
    }
}

pub open spec fn idle_input() -> InputM {
    InputM {
        dx: 0,
        dy: 0,
        forward_held: false,
        back_held: false,
        left_held: false,
        right_held: false,
        jump_held: false,
        capture_pressed: false,
        release_pressed: false,
    }
}

/// No movement key is held and the jump key is up; the pointer may still
/// move and the capture mode may still be toggled.
pub open spec fn no_motion_input(inp: InputM) -> bool {
    &&& !inp.forward_held
    &&& !inp.back_held
    &&& !inp.left_held
    &&& !inp.right_held
    &&& !inp.jump_held
}

/// The capture state after one tick: an explicit capture gesture wins,
/// an explicit release key releases, and otherwise the state persists.
pub open spec fn cursor_next(
    mode: CursorCaptureState,
    release_pressed: bool,
    capture_pressed: bool,
) -> CursorCaptureState {
    if capture_pressed {
        CursorCaptureState::Captured
    } else if release_pressed {
        CursorCaptureState::Released
    } else {
        mode
    }
}

/// Advances the pointer-capture state machine on this tick's toggle
/// gestures.
pub fn cursor_update(
    mode: CursorCaptureState,
    release_pressed: bool,
    capture_pressed: bool,
) -> (r: CursorCaptureState)
    ensures
        r == cursor_next(mode, release_pressed, capture_pressed),
{
    if capture_pressed {
        CursorCaptureState::Captured
    } else if release_pressed {
        CursorCaptureState::Released
    } else {
        mode
    }
}

} // verus!
