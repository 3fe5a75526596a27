//! The per-tick simulation: one player and one camera, advanced in a
//! fixed order — capture toggles, mouse-look, gravity, movement intent,
//! position integration, friction, ground contact, camera follow.

use vstd::prelude::*;
use vstd::arithmetic::div_mod::{
    lemma_div_is_ordered, lemma_div_multiples_vanish, lemma_div_pos_is_pos,
};
use crate::fx::{lemma_div_trunc_bounds, SCALE};
use crate::input::{cursor_next, cursor_update, CursorCaptureState, Input, InputM};
use crate::motion::{
    apply_friction, displacement, displacement_model, friction_next, gravity_next,
    ground_collision_next, ground_height_next, integrate_vertical, movement_next, player_wf,
    position_next, Player, PlayerM, COORD_LIMIT, DT_LIMIT, FACING_LIMIT, FRICTION, GRAVITY,
    JUMP_SPEED, MOVE_SPEED, PLAYER_HEIGHT, VEL_LIMIT,
};
use crate::orientation::{
    orient_next, orient_wf, CameraOrientation, OrientM, ANGLE_LIMIT, DELTA_LIMIT, SENS_LIMIT,
};
use crate::vec3::{vec_in_bounds, Vec3Fx, Vec3M};

verus! {

/// Process-wide configuration, immutable after startup.
#[derive(Clone, Copy, Debug, PartialEq, Eq, Structural)]
pub struct Settings {
    /// Micro-radians of yaw or pitch per raw pointer count.
    pub sensitivity: i64,
}

impl Default for Settings {
    /// One thousandth of a radian per count.
    fn default() -> (s: Settings)
        ensures
            s.sensitivity == crate::orientation::DEFAULT_SENSITIVITY,
    {
        Settings { sensitivity: crate::orientation::DEFAULT_SENSITIVITY }
    }
}

/// The whole controller state: the player, the camera orientation and
/// derived camera position, the pointer-capture mode, the configuration,
/// the flat ground height, and whether the jump key was held last tick
/// (for edge detection).
#[derive(Clone, Copy, Debug, PartialEq, Eq, Structural)]
pub struct Sim {
    pub player: Player,
    pub orientation: CameraOrientation,
    pub camera_position: Vec3Fx,
    pub cursor: CursorCaptureState,
    pub settings: Settings,
    pub ground_level: i64,
    pub jump_was_held: bool,
}

/// The mathematical value of a `Sim`.
pub ghost struct SimM {
    pub player: PlayerM,
    pub orientation: OrientM,
    pub camera_position: Vec3M,
    pub cursor: CursorCaptureState,
    pub sensitivity: int,
    pub ground_level: int,
    pub jump_was_held: bool,
}

impl View for Sim {
    type V = SimM;

    open spec fn view(&self) -> SimM {
        SimM {
            player: self.player@,
            orientation: self.orientation@,
            camera_position: self.camera_position@,
            cursor: self.cursor,
            sensitivity: self.settings.sensitivity as int,
            ground_level: self.ground_level as int,
            jump_was_held: self.jump_was_held,
        }
    }
}

/// The camera sits one player height above the player's feet.
pub open spec fn camera_pos_model(pos: Vec3M) -> Vec3M {
    Vec3M { x: pos.x, y: pos.y + PLAYER_HEIGHT, z: pos.z }
}

/// Derives the camera position from the player position.
pub fn camera_position_of(pos: Vec3Fx) -> (r: Vec3Fx)
    requires
        -0x7000_0000_0000_0000 <= pos.y <= 0x7000_0000_0000_0000,
    ensures
        r@ == camera_pos_model(pos@),
{
    Vec3Fx { x: pos.x, y: pos.y + PLAYER_HEIGHT, z: pos.z }
}

/// What a tick accepts: a well-formed player, and every quantity small
/// enough that the 64-bit fixed-point arithmetic cannot overflow. A held
/// movement key needs a facing with some horizontal part; the pitch
/// clamp guarantees one for any facing the camera can produce.
pub open spec fn tick_req(s: SimM, inp: InputM, facing: Vec3M, dt: int) -> bool {
    &&& player_wf(s.player)
    &&& vec_in_bounds(s.player.position, COORD_LIMIT as int)
    &&& vec_in_bounds(s.player.velocity, COORD_LIMIT as int)
    &&& 0 <= dt <= DT_LIMIT
    &&& -DELTA_LIMIT <= inp.dx <= DELTA_LIMIT
    &&& -DELTA_LIMIT <= inp.dy <= DELTA_LIMIT
    &&& 0 <= s.sensitivity <= SENS_LIMIT
    &&& -ANGLE_LIMIT <= s.orientation.yaw <= ANGLE_LIMIT
    &&& -ANGLE_LIMIT <= s.orientation.pitch <= ANGLE_LIMIT
    &&& -COORD_LIMIT <= s.ground_level <= COORD_LIMIT
    &&& -FACING_LIMIT <= facing.x <= FACING_LIMIT
    &&& -FACING_LIMIT <= facing.z <= FACING_LIMIT
    &&& ((inp.forward_held || inp.back_held || inp.left_held || inp.right_held) ==> (facing.x != 0
        || facing.z != 0))
}

/// The state after the first half of a tick: capture toggles applied,
/// pointer delta turned into orientation, gravity integrated, movement
/// intent and jump applied, and the jump key remembered for the next
/// tick's edge detection. The position is still where the tick started.
pub open spec fn tick_prefix_model(s: SimM, inp: InputM, facing: Vec3M, dt: int) -> SimM {
    let cursor = cursor_next(s.cursor, inp.release_pressed, inp.capture_pressed);
    let orientation = orient_next(s.orientation, cursor, inp.dx, inp.dy, s.sensitivity);
    let jump_edge = inp.jump_held && !s.jump_was_held;
    let p1 = gravity_next(s.player, GRAVITY as int, dt);
    let p2 = movement_next(p1, inp, jump_edge, facing, MOVE_SPEED as int, JUMP_SPEED as int);
    SimM {
        player: p2,
        orientation: orientation,
        camera_position: s.camera_position,
        cursor: cursor,
        sensitivity: s.sensitivity,
        ground_level: s.ground_level,
        jump_was_held: inp.jump_held,
    }
}

/// One whole tick under the height-threshold ground strategy.
pub open spec fn tick_model(s: SimM, inp: InputM, facing: Vec3M, dt: int) -> SimM {
    let s1 = tick_prefix_model(s, inp, facing, dt);
    let p3 = position_next(s1.player, dt);
    let p4 = friction_next(p3, FRICTION as int);
    let p5 = ground_height_next(p4, s.ground_level);
    SimM {
        player: p5,
        orientation: s1.orientation,
        camera_position: camera_pos_model(p5.position),
        cursor: s1.cursor,
        sensitivity: s1.sensitivity,
        ground_level: s1.ground_level,
        jump_was_held: s1.jump_was_held,
    }
}

/// The second half of a tick under the collision-query ground strategy,
/// after the external mover resolved this tick's motion request:
/// friction, then the resolved position and downward-contact flag.
pub open spec fn tick_resolve_model(s: SimM, resolved: Vec3M, hit_below: bool) -> SimM {
    let p4 = friction_next(s.player, FRICTION as int);
    let p5 = ground_collision_next(p4, resolved, hit_below);
    SimM {
        player: p5,
        orientation: s.orientation,
        camera_position: camera_pos_model(resolved),
        cursor: s.cursor,
        sensitivity: s.sensitivity,
        ground_level: s.ground_level,
        jump_was_held: s.jump_was_held,
    }
}

impl Sim {
    /// The simulation as configured at scene start: a resting, grounded
    /// player standing on the ground plane, a level captured camera.
    pub fn new(settings: Settings, ground_level: i64, start: Vec3Fx) -> (r: Sim)
        requires
            0 <= settings.sensitivity <= SENS_LIMIT,
            -COORD_LIMIT <= ground_level <= COORD_LIMIT,
            vec_in_bounds(start@, COORD_LIMIT as int),
            start.y == ground_level,
        ensures
            r@.player.position == start@,
            r@.player.velocity == (Vec3M { x: 0, y: 0, z: 0 }),
            r@.player.is_grounded,
            player_wf(r@.player),
            r@.orientation == (OrientM { yaw: 0, pitch: 0 }),
            r@.camera_position == camera_pos_model(start@),
            r@.cursor == CursorCaptureState::Captured,
            r@.sensitivity == settings.sensitivity,
            r@.ground_level == ground_level,
            !r@.jump_was_held,
    {
        let player = Player::spawn(start);
        Sim {
            player,
            orientation: CameraOrientation::level(),
            camera_position: camera_position_of(start),
            cursor: CursorCaptureState::Captured,
            settings,
            ground_level,
            jump_was_held: false,
        }
    }

    /// The first half of a tick: everything up to and including movement
    /// intent, returning the motion request `velocity * dt` for the
    /// external mover. Under the height-threshold strategy, `tick` does
    /// the whole of it instead.
    pub fn begin_tick(&mut self, inp: &Input, facing: Vec3Fx, dt: i64) -> (disp: Vec3Fx)
        requires
            tick_req(old(self)@, inp@, facing@, dt as int),
        ensures
            final(self)@ == tick_prefix_model(old(self)@, inp@, facing@, dt as int),
            disp@ == displacement_model(final(self)@.player.velocity, dt as int),
            vec_in_bounds(disp@, 0x4500_0000_0000_0000),
            vec_in_bounds(final(self)@.player.velocity, 0x2000_0000_0000),
            player_wf(old(self)@.player) ==> player_wf(final(self)@.player),
    {
        let mode = cursor_update(self.cursor, inp.release_pressed, inp.capture_pressed);
        self.cursor = mode;
        self.orientation.update(mode, inp.dx, inp.dy, self.settings.sensitivity);
        let jump_edge = inp.jump_held && !self.jump_was_held;
        self.jump_was_held = inp.jump_held;
        proof {
            lemma_div_trunc_bounds(GRAVITY as int * dt as int, SCALE as int, 3_000_000int * 0x4000_0000);
        }
        integrate_vertical(&mut self.player, GRAVITY, dt);
        proof {
            crate::motion::lemma_move_delta_bounds(inp@, facing@, MOVE_SPEED as int);
        }
        crate::motion::apply_movement(&mut self.player, inp, jump_edge, facing, MOVE_SPEED, JUMP_SPEED);
        displacement(self.player.velocity, dt)
    }

    /// One whole tick under the height-threshold ground strategy.
    pub fn tick(&mut self, inp: &Input, facing: Vec3Fx, dt: i64)
        requires
            tick_req(old(self)@, inp@, facing@, dt as int),
        ensures
            final(self)@ == tick_model(old(self)@, inp@, facing@, dt as int),
            player_wf(final(self)@.player),
    {
        let disp = self.begin_tick(inp, facing, dt);
        self.player.position.x = self.player.position.x + disp.x;
        self.player.position.y = self.player.position.y + disp.y;
        self.player.position.z = self.player.position.z + disp.z;
        apply_friction(&mut self.player, FRICTION);
        let ground = self.ground_level;
        crate::motion::resolve_ground_height(&mut self.player, ground);
        self.camera_position = camera_position_of(self.player.position);
    }

    /// The second half of a tick under the collision-query ground
    /// strategy: adopt what the external mover resolved for the request
    /// `begin_tick` returned.
    pub fn finish_tick_collision(&mut self, resolved: Vec3Fx, hit_below: bool)
        requires
            vec_in_bounds(old(self).player.velocity@, VEL_LIMIT as int),
            -0x7000_0000_0000_0000 <= resolved.y <= 0x7000_0000_0000_0000,
        ensures
            final(self)@ == tick_resolve_model(old(self)@, resolved@, hit_below),
            player_wf(final(self)@.player),
    {
        apply_friction(&mut self.player, FRICTION);
        crate::motion::resolve_ground_collision(&mut self.player, resolved, hit_below);
        self.camera_position = camera_position_of(self.player.position);
    }
}

/// A grounded player never keeps vertical velocity: a tick taken from
/// any state whose grounded player is vertically at rest ends in such a
/// state again, so the property holds of every state reachable from
/// `Sim::new`.
pub proof fn lemma_tick_preserves_grounded_stop(s: SimM, inp: InputM, facing: Vec3M, dt: int)
    requires
        player_wf(s.player),
    ensures
        player_wf(tick_model(s, inp, facing, dt).player),
{
}

/// The same invariant under the collision-query strategy: whatever state
/// the tick's first half left, resolving the external mover's answer
/// grounds the player only with vertical velocity zeroed.
pub proof fn lemma_resolve_preserves_grounded_stop(s: SimM, resolved: Vec3M, hit_below: bool)
    ensures
        player_wf(tick_resolve_model(s, resolved, hit_below).player),
{
}

/// The pitch clamp is an invariant of the whole tick: whatever the
/// pointer does, a tick taken from a state whose pitch is in range ends
/// with the pitch in range.
pub proof fn lemma_tick_keeps_pitch_clamped(s: SimM, inp: InputM, facing: Vec3M, dt: int)
    requires
        orient_wf(s.orientation),
    ensures
        orient_wf(tick_model(s, inp, facing, dt).orientation),
{
}

/// While the cursor ends the tick released, the tick's pointer delta
/// changes nothing of the orientation.
pub proof fn lemma_released_cursor_freezes_look(s: SimM, inp: InputM, facing: Vec3M, dt: int)
    requires
        cursor_next(s.cursor, inp.release_pressed, inp.capture_pressed)
            == CursorCaptureState::Released,
    ensures
        tick_model(s, inp, facing, dt).orientation == s.orientation,
{
}

/// A jump succeeds — adds exactly the vertical impulse and leaves the
/// ground — when and only when the player is grounded and the jump edge
/// is fresh; otherwise movement leaves vertical velocity and grounding
/// untouched.
pub proof fn lemma_jump_gate(
    p: PlayerM,
    inp: InputM,
    jump_edge: bool,
    facing: Vec3M,
    speed: int,
    jump_speed: int,
)
    ensures
        ({
            let q = movement_next(p, inp, jump_edge, facing, speed, jump_speed);
            &&& (jump_edge && p.is_grounded) ==> (q.velocity.y == p.velocity.y + jump_speed
                && !q.is_grounded)
            &&& !(jump_edge && p.is_grounded) ==> (q.velocity.y == p.velocity.y && q.is_grounded
                == p.is_grounded)
        }),
{
}

/// The given input with the jump key up.
pub open spec fn with_jump_released(inp: InputM) -> InputM {
    InputM {
        dx: inp.dx,
        dy: inp.dy,
        forward_held: inp.forward_held,
        back_held: inp.back_held,
        left_held: inp.left_held,
        right_held: inp.right_held,
        jump_held: false,
        capture_pressed: inp.capture_pressed,
        release_pressed: inp.release_pressed,
    }
}

/// Holding the jump key without releasing it does not re-trigger the
/// jump: if the key was already held through the previous tick, a tick
/// with the key still held moves the player exactly as a tick with the
/// key up would.
pub proof fn lemma_holding_jump_does_not_retrigger(
    s: SimM,
    i1: InputM,
    f1: Vec3M,
    d1: int,
    i2: InputM,
    f2: Vec3M,
    d2: int,
)
    requires
        i1.jump_held,
        i2.jump_held,
    ensures
        ({
            let t1 = tick_model(s, i1, f1, d1);
            tick_model(t1, i2, f2, d2).player == tick_model(t1, with_jump_released(i2), f2, d2).player
        }),
{
}

/// The horizontal velocity left after `n` grounded ticks of friction.
pub open spec fn friction_decay(v: int, n: nat) -> int
    decreases n,
{
    if n == 0 {
        v
    } else {
        crate::fx::fx_mul_spec(friction_decay(v, (n - 1) as nat), FRICTION as int)
    }
}

/// The state after `n` ticks of the same input.
pub open spec fn run_ticks(s: SimM, inp: InputM, facing: Vec3M, dt: int, n: nat) -> SimM
    decreases n,
{
    if n == 0 {
        s
    } else {
        tick_model(run_ticks(s, inp, facing, dt, (n - 1) as nat), inp, facing, dt)
    }
}

/// With no movement or jump key held, a grounded player stays grounded
/// and its horizontal velocity decays tick by tick by exactly the
/// friction factor.
pub proof fn lemma_grounded_idle_decay(s: SimM, inp: InputM, facing: Vec3M, dt: int, n: nat)
    requires
        player_wf(s.player),
        s.player.is_grounded,
        s.player.position.y == s.ground_level,
        crate::input::no_motion_input(inp),
    ensures
        ({
            let t = run_ticks(s, inp, facing, dt, n);
            &&& t.player.velocity.x == friction_decay(s.player.velocity.x, n)
            &&& t.player.velocity.z == friction_decay(s.player.velocity.z, n)
            &&& t.player.velocity.y == 0
            &&& t.player.is_grounded
            &&& t.player.position.y == s.ground_level
            &&& t.ground_level == s.ground_level
        }),
    decreases n,
{
    if n > 0 {
        lemma_grounded_idle_decay(s, inp, facing, dt, (n - 1) as nat);
        assert(crate::fx::fx_mul_spec(0, dt) == 0) by {
            crate::fx::lemma_div_trunc_sign(0 * dt, SCALE as int);
        }
    }
}

/// Friction never reverses the sign of a horizontal velocity component
/// and never grows its magnitude: a non-negative component decays toward
/// zero and stays non-negative, and symmetrically below zero.
pub proof fn lemma_friction_decay_sign(v: int, n: nat)
    ensures
        v >= 0 ==> 0 <= friction_decay(v, n) <= v,
        v <= 0 ==> v <= friction_decay(v, n) <= 0,
    decreases n,
{
    if n > 0 {
        lemma_friction_decay_sign(v, (n - 1) as nat);
        lemma_friction_step(friction_decay(v, (n - 1) as nat));
    }
}

/// One grounded tick keeps at most four fifths of a horizontal velocity
/// component, toward zero.
pub proof fn lemma_friction_step(v: int)
    ensures
        v >= 0 ==> 0 <= crate::fx::fx_mul_spec(v, FRICTION as int) <= v,
        v <= 0 ==> v <= crate::fx::fx_mul_spec(v, FRICTION as int) <= 0,
{
    if v >= 0 {
        lemma_div_pos_is_pos(v * (FRICTION as int), SCALE as int);
        lemma_div_is_ordered(v * (FRICTION as int), v * (SCALE as int), SCALE as int);
        lemma_div_multiples_vanish(v, SCALE as int);
    } else {
        lemma_div_pos_is_pos((-v) * (FRICTION as int), SCALE as int);
        lemma_div_is_ordered((-v) * (FRICTION as int), (-v) * (SCALE as int), SCALE as int);
        lemma_div_multiples_vanish(-v, SCALE as int);
        assert((-v) * (FRICTION as int) == -(v * (FRICTION as int))) by (nonlinear_arith);
    }
}

/// The decay really is geometric: after `n` grounded idle ticks at most
/// `(4 / 5) ^ n` of a non-negative horizontal velocity component is
/// left (truncation only loses more), stated without fractions as
/// `5 ^ n * friction_decay(v, n) <= 4 ^ n * v`.
pub proof fn lemma_friction_decay_geometric(v: int, n: nat)
    requires
        v >= 0,
    ensures
        0 <= friction_decay(v, n),
        vstd::arithmetic::power::pow(5, n) * friction_decay(v, n) <= vstd::arithmetic::power::pow(
            4,
            n,
        ) * v,
    decreases n,
{
    let p5 = vstd::arithmetic::power::pow(5, n);
    let p4 = vstd::arithmetic::power::pow(4, n);
    if n == 0 {
        vstd::arithmetic::power::lemma_pow0(5);
        vstd::arithmetic::power::lemma_pow0(4);
    } else {
        let m = (n - 1) as nat;
        lemma_friction_decay_geometric(v, m);
        let d = friction_decay(v, m);
        let dn = friction_decay(v, n);
        let q5 = vstd::arithmetic::power::pow(5, m);
        let q4 = vstd::arithmetic::power::pow(4, m);
        vstd::arithmetic::power::lemma_pow_positive(5, m);
        vstd::arithmetic::power::lemma_pow_positive(4, m);
        lemma_friction_step(d);
        // one step loses at least a fifth: 5 * dn <= 4 * d
        vstd::arithmetic::div_mod::lemma_fundamental_div_mod(
            d * (FRICTION as int),
            SCALE as int,
        );
        assert(5 * dn <= 4 * d);
        vstd::arithmetic::power::lemma_pow1(5);
        vstd::arithmetic::power::lemma_pow1(4);
        vstd::arithmetic::power::lemma_pow_adds(5, 1, m);
        vstd::arithmetic::power::lemma_pow_adds(4, 1, m);
        assert(p5 == 5 * q5);
        assert(p4 == 4 * q4);
        assert(p5 * dn == q5 * (5 * dn)) by (nonlinear_arith)
            requires
                p5 == 5 * q5,
        ;
        vstd::arithmetic::mul::lemma_mul_inequality(5 * dn, 4 * d, q5);
        assert((5 * dn) * q5 <= (4 * d) * q5);
        assert((4 * d) * q5 == 4 * (q5 * d)) by (nonlinear_arith);
        assert(q5 * d <= q4 * v);
        assert(4 * (q5 * d) <= 4 * (q4 * v));
        assert(p4 * v == 4 * (q4 * v)) by (nonlinear_arith)
            requires
                p4 == 4 * q4,
        ;
        assert(p5 * dn <= p4 * v);
    }
}

} // verus!
