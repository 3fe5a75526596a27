use fps_controller::fx::clamp_i64;
use fps_controller::input::{cursor_update, CursorCaptureState};
use fps_controller::orientation::{CameraOrientation, DEFAULT_SENSITIVITY, PITCH_LIMIT};
use fps_controller::sim::Settings;

#[test]
fn default_sensitivity_is_one_milliradian() {
    let s = Settings::default();
    assert_eq!(s.sensitivity, 1_000);
    assert_eq!(s.sensitivity, DEFAULT_SENSITIVITY);
}

#[test]
fn look_moves_against_pointer_delta() {
    let mut o = CameraOrientation::level();
    o.update(CursorCaptureState::Captured, 3, 2, 1_000);
    assert_eq!(o.yaw, -3_000);
    assert_eq!(o.pitch, -2_000);
}

#[test]
fn pitch_clamps_looking_up() {
    let mut o = CameraOrientation::level();
    o.update(CursorCaptureState::Captured, 0, -10_000, 1_000);
    assert_eq!(o.pitch, PITCH_LIMIT);
    assert_eq!(o.pitch, 1_256_637);
}

#[test]
fn pitch_clamps_looking_down() {
    let mut o = CameraOrientation::level();
    o.update(CursorCaptureState::Captured, 0, 10_000, 1_000);
    assert_eq!(o.pitch, -PITCH_LIMIT);
}

#[test]
fn pitch_stays_clamped_under_repeated_updates() {
    let mut o = CameraOrientation::level();
    for _ in 0..8 {
        o.update(CursorCaptureState::Captured, 500, 10_000, 1_000);
        assert!(-PITCH_LIMIT <= o.pitch && o.pitch <= PITCH_LIMIT);
    }
    assert_eq!(o.pitch, -PITCH_LIMIT);
}

#[test]
fn clamping_a_clamped_value_changes_nothing() {
    let once = clamp_i64(9_999_999, -PITCH_LIMIT, PITCH_LIMIT);
    let twice = clamp_i64(once, -PITCH_LIMIT, PITCH_LIMIT);
    assert_eq!(once, twice);
    let inside = clamp_i64(123, -PITCH_LIMIT, PITCH_LIMIT);
    assert_eq!(inside, 123);
    assert_eq!(clamp_i64(inside, -PITCH_LIMIT, PITCH_LIMIT), 123);
}

#[test]
fn released_cursor_discards_deltas() {
    let mut o = CameraOrientation::level();
    o.update(CursorCaptureState::Captured, 10, -20, 1_000);
    let yaw = o.yaw;
    let pitch = o.pitch;
    o.update(CursorCaptureState::Released, 5_000, 7_000, 1_000);
    assert_eq!(o.yaw, yaw);
    assert_eq!(o.pitch, pitch);
}

#[test]
fn cursor_release_key_releases() {
    let r = cursor_update(CursorCaptureState::Captured, true, false);
    assert_eq!(r, CursorCaptureState::Released);
}

#[test]
fn cursor_capture_gesture_captures() {
    let r = cursor_update(CursorCaptureState::Released, false, true);
    assert_eq!(r, CursorCaptureState::Captured);
}

#[test]
fn cursor_state_persists_without_gesture() {
    assert_eq!(
        cursor_update(CursorCaptureState::Captured, false, false),
        CursorCaptureState::Captured
    );
    assert_eq!(
        cursor_update(CursorCaptureState::Released, false, false),
        CursorCaptureState::Released
    );
}

#[test]
fn cursor_capture_wins_simultaneous_gestures() {
    let r = cursor_update(CursorCaptureState::Captured, true, true);
    assert_eq!(r, CursorCaptureState::Captured);
}
