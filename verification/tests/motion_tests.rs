use fps_controller::fx::{div_trunc_i64, fx_mul, isqrt_u64};
use fps_controller::input::Input;
use fps_controller::motion::{
    apply_friction, apply_movement, horizontal_facing, integrate_position, integrate_vertical,
    resolve_ground_collision, resolve_ground_height, Player, FRICTION,
};
use fps_controller::vec3::Vec3Fx;

fn keys(forward: bool, back: bool, left: bool, right: bool) -> Input {
    let mut i = Input::idle();
    i.forward_held = forward;
    i.back_held = back;
    i.left_held = left;
    i.right_held = right;
    i
}

#[test]
fn isqrt_small_values() {
    assert_eq!(isqrt_u64(0), 0);
    assert_eq!(isqrt_u64(1), 1);
    assert_eq!(isqrt_u64(2), 1);
    assert_eq!(isqrt_u64(3), 1);
    assert_eq!(isqrt_u64(4), 2);
    assert_eq!(isqrt_u64(24), 4);
    assert_eq!(isqrt_u64(25), 5);
    assert_eq!(isqrt_u64(26), 5);
}

#[test]
fn isqrt_large_values() {
    assert_eq!(isqrt_u64(1_000_000_000_000), 1_000_000);
    assert_eq!(isqrt_u64(u64::MAX), 4_294_967_295);
}

#[test]
fn fixed_point_multiply_truncates_toward_zero() {
    assert_eq!(fx_mul(1_000_000, 800_000), 800_000);
    assert_eq!(fx_mul(-1_500_000, 800_000), -1_200_000);
    assert_eq!(fx_mul(1, 800_000), 0);
    assert_eq!(fx_mul(-1, 800_000), 0);
}

#[test]
fn truncating_division_rounds_toward_zero() {
    assert_eq!(div_trunc_i64(7, 2), 3);
    assert_eq!(div_trunc_i64(-7, 2), -3);
    assert_eq!(div_trunc_i64(0, 5), 0);
}

#[test]
fn facing_is_normalized_with_vertical_zeroed() {
    let f = horizontal_facing(Vec3Fx::new(3_000_000, 123_456, 4_000_000));
    assert_eq!(f, Vec3Fx::new(600_000, 0, 800_000));
}

#[test]
fn facing_normalization_keeps_signs() {
    let f = horizontal_facing(Vec3Fx::new(-3_000_000, -999, 4_000_000));
    assert_eq!(f, Vec3Fx::new(-600_000, 0, 800_000));
}

#[test]
fn unit_facing_is_unchanged() {
    let f = horizontal_facing(Vec3Fx::new(0, 0, 1_000_000));
    assert_eq!(f, Vec3Fx::new(0, 0, 1_000_000));
}

#[test]
fn forward_key_adds_facing_velocity() {
    let mut p = Player::spawn(Vec3Fx::zero());
    let inp = keys(true, false, false, false);
    apply_movement(&mut p, &inp, false, Vec3Fx::new(0, 0, 1_000_000), 1_000_000, 2_000_000);
    assert_eq!(p.velocity, Vec3Fx::new(0, 0, 1_000_000));
    assert!(p.is_grounded);
}

#[test]
fn strafe_keys_move_along_the_right_axis() {
    // right of facing +z is (-facing.z, 0, facing.x) = -x
    let mut p = Player::spawn(Vec3Fx::zero());
    let inp = keys(false, false, false, true);
    apply_movement(&mut p, &inp, false, Vec3Fx::new(0, 0, 1_000_000), 1_000_000, 2_000_000);
    assert_eq!(p.velocity, Vec3Fx::new(-1_000_000, 0, 0));
}

#[test]
fn diagonal_movement_is_not_renormalized() {
    let mut p = Player::spawn(Vec3Fx::zero());
    let inp = keys(true, false, true, false);
    apply_movement(&mut p, &inp, false, Vec3Fx::new(0, 0, 1_000_000), 1_000_000, 2_000_000);
    // forward and strafe-left compose additively
    assert_eq!(p.velocity, Vec3Fx::new(1_000_000, 0, 1_000_000));
}

#[test]
fn opposed_keys_cancel() {
    let mut p = Player::spawn(Vec3Fx::zero());
    let inp = keys(true, true, false, false);
    apply_movement(&mut p, &inp, false, Vec3Fx::new(600_000, 0, 800_000), 1_000_000, 2_000_000);
    assert_eq!(p.velocity, Vec3Fx::zero());
}

#[test]
fn jump_needs_ground_and_fresh_press() {
    let mut p = Player::spawn(Vec3Fx::zero());
    let inp = Input::idle();
    apply_movement(&mut p, &inp, true, Vec3Fx::new(0, 0, 1_000_000), 1_000_000, 2_000_000);
    assert_eq!(p.velocity.y, 2_000_000);
    assert!(!p.is_grounded);
    // a second fresh press while airborne does nothing
    apply_movement(&mut p, &inp, true, Vec3Fx::new(0, 0, 1_000_000), 1_000_000, 2_000_000);
    assert_eq!(p.velocity.y, 2_000_000);
    assert!(!p.is_grounded);
    // no edge, no jump
    let mut q = Player::spawn(Vec3Fx::zero());
    apply_movement(&mut q, &inp, false, Vec3Fx::new(0, 0, 1_000_000), 1_000_000, 2_000_000);
    assert_eq!(q.velocity.y, 0);
    assert!(q.is_grounded);
}

#[test]
fn gravity_only_acts_while_airborne() {
    let mut p = Player::spawn(Vec3Fx::zero());
    integrate_vertical(&mut p, 3_000_000, 1_000_000);
    assert_eq!(p.velocity.y, 0);
    p.is_grounded = false;
    integrate_vertical(&mut p, 3_000_000, 1_000_000);
    assert_eq!(p.velocity.y, -3_000_000);
    integrate_vertical(&mut p, 3_000_000, 500_000);
    assert_eq!(p.velocity.y, -4_500_000);
}

#[test]
fn friction_attenuates_horizontal_velocity_while_grounded() {
    let mut p = Player::spawn(Vec3Fx::zero());
    p.velocity = Vec3Fx::new(1_000_000, 0, -500_000);
    apply_friction(&mut p, FRICTION);
    assert_eq!(p.velocity, Vec3Fx::new(800_000, 0, -400_000));
}

#[test]
fn friction_leaves_vertical_velocity_alone() {
    let mut p = Player::spawn(Vec3Fx::zero());
    p.velocity = Vec3Fx::new(1_000_000, 7, 0);
    apply_friction(&mut p, FRICTION);
    assert_eq!(p.velocity, Vec3Fx::new(800_000, 7, 0));
}

#[test]
fn friction_skips_airborne_players() {
    let mut p = Player::spawn(Vec3Fx::zero());
    p.velocity = Vec3Fx::new(1_000_000, 0, 0);
    p.is_grounded = false;
    apply_friction(&mut p, FRICTION);
    assert_eq!(p.velocity, Vec3Fx::new(1_000_000, 0, 0));
}

#[test]
fn friction_never_reverses_sign() {
    let mut p = Player::spawn(Vec3Fx::zero());
    p.velocity = Vec3Fx::new(1, 0, -1);
    apply_friction(&mut p, FRICTION);
    assert_eq!(p.velocity, Vec3Fx::zero());
    apply_friction(&mut p, FRICTION);
    assert_eq!(p.velocity, Vec3Fx::zero());
}

#[test]
fn position_integrates_velocity_over_elapsed_time() {
    let mut p = Player::spawn(Vec3Fx::zero());
    p.velocity = Vec3Fx::new(0, 0, 1_000_000);
    integrate_position(&mut p, 1_000_000);
    assert_eq!(p.position, Vec3Fx::new(0, 0, 1_000_000));
    integrate_position(&mut p, 500_000);
    assert_eq!(p.position, Vec3Fx::new(0, 0, 1_500_000));
}

#[test]
fn ground_snap_below_threshold() {
    let mut p = Player::spawn(Vec3Fx::zero());
    p.position = Vec3Fx::new(5, -3_000_000, 7);
    p.velocity = Vec3Fx::new(100, -4_000_000, 200);
    p.is_grounded = false;
    resolve_ground_height(&mut p, 0);
    assert_eq!(p.position, Vec3Fx::new(5, 0, 7));
    assert_eq!(p.velocity, Vec3Fx::new(100, 0, 200));
    assert!(p.is_grounded);
}

#[test]
fn ground_release_above_threshold() {
    let mut p = Player::spawn(Vec3Fx::zero());
    p.position = Vec3Fx::new(0, 1, 0);
    resolve_ground_height(&mut p, 0);
    assert!(!p.is_grounded);
}

#[test]
fn ground_contact_at_exact_height_persists() {
    let mut p = Player::spawn(Vec3Fx::zero());
    resolve_ground_height(&mut p, 0);
    assert!(p.is_grounded);
    assert_eq!(p.velocity.y, 0);
}

#[test]
fn downward_collision_grounds_and_stops_fall() {
    let mut p = Player::spawn(Vec3Fx::zero());
    p.velocity = Vec3Fx::new(300_000, -2_000_000, 0);
    p.is_grounded = false;
    resolve_ground_collision(&mut p, Vec3Fx::new(10, 20, 30), true);
    assert_eq!(p.position, Vec3Fx::new(10, 20, 30));
    assert_eq!(p.velocity, Vec3Fx::new(300_000, 0, 0));
    assert!(p.is_grounded);
}

#[test]
fn side_collision_keeps_vertical_velocity() {
    let mut p = Player::spawn(Vec3Fx::zero());
    p.velocity = Vec3Fx::new(300_000, 1_500_000, 0);
    p.is_grounded = false;
    resolve_ground_collision(&mut p, Vec3Fx::new(1, 2, 3), false);
    assert_eq!(p.position, Vec3Fx::new(1, 2, 3));
    assert_eq!(p.velocity, Vec3Fx::new(300_000, 1_500_000, 0));
    assert!(!p.is_grounded);
}
