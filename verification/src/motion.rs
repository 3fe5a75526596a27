//! Player kinematics: movement intent, jumping, gravity, friction,
//! position integration and ground-contact resolution.

use vstd::prelude::*;
use vstd::arithmetic::div_mod::{
    lemma_div_is_ordered, lemma_div_multiples_vanish, lemma_div_pos_is_pos,
};
use vstd::arithmetic::mul::lemma_mul_inequality;
use crate::fx::{
    div_trunc, fx_mul, fx_mul_spec, isqrt_u64, lemma_div_trunc_bounds, sqrt_floor, SCALE,
};
use crate::input::{Input, InputM};
use crate::vec3::{vec_in_bounds, Vec3Fx, Vec3M};

verus! {

/// Horizontal speed added per held movement key, in micro-units per
/// second: one unit per second.
pub const MOVE_SPEED: i64 = 1_000_000;

/// Vertical impulse of a jump, in micro-units per second.
pub const JUMP_SPEED: i64 = 2_000_000;

/// Downward acceleration while airborne, in micro-units per second
/// squared.
pub const GRAVITY: i64 = 3_000_000;

/// Horizontal velocity kept per grounded tick, as a fixed-point factor:
/// four fifths.
pub const FRICTION: i64 = 800_000;

/// Camera height above the player origin, in micro-units.
pub const PLAYER_HEIGHT: i64 = 1_600_000;

/// Largest accepted position or velocity component at a tick boundary.
pub const COORD_LIMIT: i64 = 0x100_0000_0000;

/// Largest accepted tick duration, in micro-seconds.
pub const DT_LIMIT: i64 = 0x4000_0000;

/// Largest accepted facing-vector component.
pub const FACING_LIMIT: i64 = 0x8000_0000;

/// Bound on velocity components accepted by the per-component steps;
/// roomier than `COORD_LIMIT` so that the steps compose within a tick.
pub const VEL_LIMIT: i64 = 0x10_0000_0000_0000;

/// The single controllable entity: its feet position, its linear
/// velocity, and whether it rests on a supporting surface.
#[derive(Clone, Copy, Debug, PartialEq, Eq, Structural)]
pub struct Player {
    pub position: Vec3Fx,
    pub velocity: Vec3Fx,
    pub is_grounded: bool,
}

/// The mathematical value of a `Player`.
pub ghost struct PlayerM {
    pub position: Vec3M,
    pub velocity: Vec3M,
    pub is_grounded: bool,
}

impl View for Player {
    type V = PlayerM;

    open spec fn view(&self) -> PlayerM {
        PlayerM {
            position: self.position@,
            velocity: self.velocity@,
            is_grounded: self.is_grounded,
        }
    }
}

/// A grounded player has no vertical velocity.
pub open spec fn player_wf(p: PlayerM) -> bool {
    p.is_grounded ==> p.velocity.y == 0
}

impl Player {
    /// The player as created at scene start: resting, grounded.
    pub fn spawn(position: Vec3Fx) -> (r: Player)
        ensures
            r@.position == position@,
            r@.velocity == (Vec3M { x: 0, y: 0, z: 0 }),
            r@.is_grounded,
            player_wf(r@),
    {
        Player { position, velocity: Vec3Fx::zero(), is_grounded: true }
    }
}

/// The length of the horizontal part of a facing vector, in fixed point.
pub open spec fn norm_len(fx: int, fz: int) -> int {
    sqrt_floor(fx * fx + fz * fz)
}

/// One component of the horizontal facing scaled back to unit length:
/// `c` is the component, `(fx, fz)` the horizontal facing it belongs to.
pub open spec fn norm_comp(c: int, fx: int, fz: int) -> int {
    div_trunc(c * SCALE, norm_len(fx, fz))
}

/// A component is never longer than the whole horizontal facing.
proof fn lemma_abs_le_norm_len(c: int, o: int)
    ensures
        norm_len(c, o) >= 0,
        c <= norm_len(c, o),
        -c <= norm_len(c, o),
        norm_len(c, o) == norm_len(o, c),
{
    let n = c * c + o * o;
    assert(c * c >= 0 && o * o >= 0) by (nonlinear_arith);
    crate::fx::lemma_sqrt_floor(n);
    let s = sqrt_floor(n);
    let a = if c >= 0 {
        c
    } else {
        -c
    };
    assert(a * a == c * c) by (nonlinear_arith)
        requires
            a == c || a == -c,
    ;
    if s < a {
        lemma_mul_inequality(s + 1, a, s + 1);
        lemma_mul_inequality(s + 1, a, a);
        assert(n < (s + 1) * (s + 1));
        assert(false);
    }
}

/// The normalized horizontal facing has components within one unit.
pub proof fn lemma_norm_unit(fx: int, fz: int)
    requires
        fx != 0 || fz != 0,
    ensures
        1 <= norm_len(fx, fz),
        -SCALE <= norm_comp(fx, fx, fz) <= SCALE,
        -SCALE <= norm_comp(fz, fx, fz) <= SCALE,
{
    lemma_abs_le_norm_len(fx, fz);
    lemma_abs_le_norm_len(fz, fx);
    let len = norm_len(fx, fz);
    if fx != 0 {
        assert(1 <= len);
    } else {
        assert(1 <= len);
    }
    lemma_norm_comp_unit(fx, len);
    lemma_norm_comp_unit(fz, len);
}

/// Scaling a component no longer than `len` by `SCALE / len` keeps it
/// within one fixed-point unit.
proof fn lemma_norm_comp_unit(c: int, len: int)
    requires
        1 <= len,
        -len <= c <= len,
    ensures
        -SCALE <= div_trunc(c * SCALE, len) <= SCALE,
{
    lemma_div_multiples_vanish(SCALE as int, len);
    if c >= 0 {
        lemma_mul_inequality(c, len, SCALE as int);
        lemma_div_pos_is_pos(c * SCALE, len);
        lemma_div_is_ordered(c * SCALE, len * SCALE, len);
    } else {
        lemma_mul_inequality(-c, len, SCALE as int);
        lemma_div_pos_is_pos((-c) * SCALE, len);
        lemma_div_is_ordered((-c) * SCALE, len * SCALE, len);
        assert((-c) * SCALE == -(c * SCALE)) by (nonlinear_arith);
    }
}

/// The horizontal `forward` direction derived from a facing vector: the
/// vertical component is zeroed and the rest is re-normalized to unit
/// length (in fixed point, truncating toward zero). The degenerate case
/// of a facing with no horizontal part is excluded by the pitch clamp.
pub fn horizontal_facing(facing: Vec3Fx) -> (r: Vec3Fx)
    requires
        -FACING_LIMIT <= facing.x <= FACING_LIMIT,
        -FACING_LIMIT <= facing.z <= FACING_LIMIT,
        facing.x != 0 || facing.z != 0,
    ensures
        r@.x == norm_comp(facing@.x, facing@.x, facing@.z),
        r@.y == 0,
        r@.z == norm_comp(facing@.z, facing@.x, facing@.z),
        -SCALE <= r@.x <= SCALE,
        -SCALE <= r@.z <= SCALE,
{
    proof {
        lemma_norm_unit(facing@.x, facing@.z);
    }
    let ax: u64 = if facing.x >= 0 {
        facing.x as u64
    } else {
        (-facing.x) as u64
    };
    let az: u64 = if facing.z >= 0 {
        facing.z as u64
    } else {
        (-facing.z) as u64
    };
    proof {
        assert(ax as int * ax as int == facing@.x * facing@.x && ax as int * ax as int
            <= 0x4000_0000_0000_0000) by (nonlinear_arith)
            requires
                0 <= ax <= 0x8000_0000,
                ax == facing@.x || ax as int == -facing@.x,
        ;
        assert(az as int * az as int == facing@.z * facing@.z && az as int * az as int
            <= 0x4000_0000_0000_0000) by (nonlinear_arith)
            requires
                0 <= az <= 0x8000_0000,
                az == facing@.z || az as int == -facing@.z,
        ;
    }
    let sq: u64 = ax * ax + az * az;
    let len: u64 = isqrt_u64(sq);
    let li: i64 = len as i64;
    let nx: i64 = crate::fx::div_trunc_i64(facing.x * SCALE, li);
    let nz: i64 = crate::fx::div_trunc_i64(facing.z * SCALE, li);
    Vec3Fx { x: nx, y: 0, z: nz }
}

/// A directional contribution is active only while its key is held.
pub open spec fn move_term(held: bool, v: int) -> int {
    if held {
        v
    } else {
        0
    }
}

/// The horizontal velocity added by the held movement keys along the
/// world x-axis. `forward` is the normalized horizontal facing; `right`
/// is `forward` turned a quarter turn, `(-forward.z, 0, forward.x)`.
/// Keys compose additively; diagonal movement is deliberately not
/// re-normalized, so two held keys move faster than one.
pub open spec fn move_delta_x(inp: InputM, facing: Vec3M, speed: int) -> int {
    let nx = norm_comp(facing.x, facing.x, facing.z);
    let nz = norm_comp(facing.z, facing.x, facing.z);
    move_term(inp.forward_held, fx_mul_spec(nx, speed)) - move_term(
        inp.back_held,
        fx_mul_spec(nx, speed),
    ) + move_term(inp.right_held, fx_mul_spec(-nz, speed)) - move_term(
        inp.left_held,
        fx_mul_spec(-nz, speed),
    )
}

/// The horizontal velocity added along the world z-axis.
pub open spec fn move_delta_z(inp: InputM, facing: Vec3M, speed: int) -> int {
    let nx = norm_comp(facing.x, facing.x, facing.z);
    let nz = norm_comp(facing.z, facing.x, facing.z);
    move_term(inp.forward_held, fx_mul_spec(nz, speed)) - move_term(
        inp.back_held,
        fx_mul_spec(nz, speed),
    ) + move_term(inp.right_held, fx_mul_spec(nx, speed)) - move_term(
        inp.left_held,
        fx_mul_spec(nx, speed),
    )
}

/// The player after movement intent is applied: held movement keys add
/// to the horizontal velocity; a fresh jump press while grounded adds
/// the vertical impulse and leaves the ground. A jump succeeds exactly
/// when `jump_edge && p.is_grounded`.
pub open spec fn movement_next(
    p: PlayerM,
    inp: InputM,
    jump_edge: bool,
    facing: Vec3M,
    speed: int,
    jump_speed: int,
) -> PlayerM {
    let jumps = jump_edge && p.is_grounded;
    PlayerM {
        position: p.position,
        velocity: Vec3M {
            x: p.velocity.x + move_delta_x(inp, facing, speed),
            y: p.velocity.y + if jumps {
                jump_speed
            } else {
                0
            },
            z: p.velocity.z + move_delta_z(inp, facing, speed),
        },
        is_grounded: p.is_grounded && !jumps,
    }
}

/// Applies this tick's movement keys and jump edge to the player.
pub fn apply_movement(
    p: &mut Player,
    inp: &Input,
    jump_edge: bool,
    facing: Vec3Fx,
    speed: i64,
    jump_speed: i64,
)
    requires
        -FACING_LIMIT <= facing.x <= FACING_LIMIT,
        -FACING_LIMIT <= facing.z <= FACING_LIMIT,
        (inp.forward_held || inp.back_held || inp.left_held || inp.right_held) ==> (facing.x != 0
            || facing.z != 0),
        0 <= speed <= 0x1_0000_0000,
        0 <= jump_speed <= 0x100_0000_0000,
        vec_in_bounds(old(p).velocity@, VEL_LIMIT as int),
    ensures
        final(p)@ == movement_next(
            old(p)@,
            inp@,
            jump_edge,
            facing@,
            speed as int,
            jump_speed as int,
        ),
{
    if inp.forward_held || inp.back_held || inp.left_held || inp.right_held {
        let fwd = horizontal_facing(facing);
        proof {
            lemma_move_contribution_bounds(fwd@.x, speed as int);
            lemma_move_contribution_bounds(fwd@.z, speed as int);
            lemma_move_contribution_bounds(-fwd@.z, speed as int);
        }
        let a = fx_mul(fwd.x, speed);
        let b = fx_mul(fwd.z, speed);
        let c = fx_mul(-fwd.z, speed);
        if inp.forward_held {
            p.velocity.x = p.velocity.x + a;
            p.velocity.z = p.velocity.z + b;
        }
        if inp.back_held {
            p.velocity.x = p.velocity.x - a;
            p.velocity.z = p.velocity.z - b;
        }
        if inp.right_held {
            p.velocity.x = p.velocity.x + c;
            p.velocity.z = p.velocity.z + a;
        }
        if inp.left_held {
            p.velocity.x = p.velocity.x - c;
            p.velocity.z = p.velocity.z - a;
        }
    }
    if jump_edge && p.is_grounded {
        p.velocity.y = p.velocity.y + jump_speed;
        p.is_grounded = false;
    }
}

/// One key's contribution to velocity stays within `0x1_0000_0000`.
proof fn lemma_move_contribution_bounds(n: int, speed: int)
    requires
        -SCALE <= n <= SCALE,
        0 <= speed <= 0x1_0000_0000,
    ensures
        -0x1_0000_0000 <= fx_mul_spec(n, speed) <= 0x1_0000_0000,
{
    assert(-0xF4240_0000_0000 <= n * speed <= 0xF4240_0000_0000) by (nonlinear_arith)
        requires
            -1_000_000 <= n <= 1_000_000,
            0 <= speed <= 0x1_0000_0000,
    ;
    lemma_div_trunc_bounds(n * speed, SCALE as int, 0xF4240_0000_0000);
    lemma_div_multiples_vanish(0x1_0000_0000, SCALE as int);
}

/// The velocity added by the held keys stays within four single-key
/// contributions.
pub proof fn lemma_move_delta_bounds(inp: InputM, facing: Vec3M, speed: int)
    requires
        0 <= speed <= 0x1_0000_0000,
        (inp.forward_held || inp.back_held || inp.left_held || inp.right_held) ==> (facing.x != 0
            || facing.z != 0),
    ensures
        -0x4_0000_0000 <= move_delta_x(inp, facing, speed) <= 0x4_0000_0000,
        -0x4_0000_0000 <= move_delta_z(inp, facing, speed) <= 0x4_0000_0000,
{
    if inp.forward_held || inp.back_held || inp.left_held || inp.right_held {
        lemma_norm_unit(facing.x, facing.z);
        let nx = norm_comp(facing.x, facing.x, facing.z);
        let nz = norm_comp(facing.z, facing.x, facing.z);
        lemma_move_contribution_bounds(nx, speed);
        lemma_move_contribution_bounds(nz, speed);
        lemma_move_contribution_bounds(-nz, speed);
    }
}

/// The player after vertical integration: while airborne, gravity pulls
/// the vertical velocity down by `gravity * dt`, unbounded by any
/// terminal velocity; while grounded, the vertical velocity is left to
/// ground-contact resolution.
pub open spec fn gravity_next(p: PlayerM, gravity: int, dt: int) -> PlayerM {
    if p.is_grounded {
        p
    } else {
        PlayerM {
            position: p.position,
            velocity: Vec3M {
                x: p.velocity.x,
                y: p.velocity.y - fx_mul_spec(gravity, dt),
                z: p.velocity.z,
            },
            is_grounded: p.is_grounded,
        }
    }
}

/// Applies gravity for one tick of `dt` micro-seconds.
pub fn integrate_vertical(p: &mut Player, gravity: i64, dt: i64)
    requires
        0 <= gravity <= 0x1_0000_0000,
        0 <= dt <= DT_LIMIT,
        -VEL_LIMIT <= old(p).velocity.y <= VEL_LIMIT,
    ensures
        final(p)@ == gravity_next(old(p)@, gravity as int, dt as int),
{
    if !p.is_grounded {
        proof {
            assert(0 <= gravity * dt <= 0x4000_0000_0000_0000) by (nonlinear_arith)
                requires
                    0 <= gravity <= 0x1_0000_0000,
                    0 <= dt <= 0x4000_0000,
            ;
            lemma_div_trunc_bounds(gravity as int * dt as int, SCALE as int, 0x4000_0000_0000_0000);
        }
        let dv = fx_mul(gravity, dt);
        p.velocity.y = p.velocity.y - dv;
    }
}

/// The player after friction: while grounded, the horizontal velocity
/// components are attenuated by the fixed-point factor; the vertical
/// component is untouched. This is the sole source of horizontal
/// deceleration.
pub open spec fn friction_next(p: PlayerM, factor: int) -> PlayerM {
    if p.is_grounded {
        PlayerM {
            position: p.position,
            velocity: Vec3M {
                x: fx_mul_spec(p.velocity.x, factor),
                y: p.velocity.y,
                z: fx_mul_spec(p.velocity.z, factor),
            },
            is_grounded: p.is_grounded,
        }
    } else {
        p
    }
}

/// Attenuates horizontal velocity once while grounded.
pub fn apply_friction(p: &mut Player, factor: i64)
    requires
        0 <= factor <= SCALE,
        vec_in_bounds(old(p).velocity@, VEL_LIMIT as int),
    ensures
        final(p)@ == friction_next(old(p)@, factor as int),
{
    if p.is_grounded {
        proof {
            lemma_friction_bounds(p.velocity@.x, factor as int);
            lemma_friction_bounds(p.velocity@.z, factor as int);
        }
        p.velocity.x = fx_mul(p.velocity.x, factor);
        p.velocity.z = fx_mul(p.velocity.z, factor);
    }
}

proof fn lemma_friction_bounds(v: int, factor: int)
    requires
        -VEL_LIMIT <= v <= VEL_LIMIT,
        0 <= factor <= SCALE,
    ensures
        -VEL_LIMIT <= fx_mul_spec(v, factor) <= VEL_LIMIT,
{
    assert(-0x10_0000_0000_0000int * 1_000_000 <= v * factor <= 0x10_0000_0000_0000int * 1_000_000)
        by (nonlinear_arith)
        requires
            -0x10_0000_0000_0000 <= v <= 0x10_0000_0000_0000,
            0 <= factor <= 1_000_000,
    ;
    lemma_div_trunc_bounds(v * factor, SCALE as int, 0x10_0000_0000_0000int * 1_000_000);
    lemma_div_multiples_vanish(0x10_0000_0000_0000, SCALE as int);
}

/// The displacement a velocity produces over `dt` micro-seconds.
pub open spec fn displacement_model(v: Vec3M, dt: int) -> Vec3M {
    Vec3M { x: fx_mul_spec(v.x, dt), y: fx_mul_spec(v.y, dt), z: fx_mul_spec(v.z, dt) }
}

/// Computes `velocity * dt`, the motion request for this tick.
pub fn displacement(v: Vec3Fx, dt: i64) -> (r: Vec3Fx)
    requires
        0 <= dt <= DT_LIMIT,
        vec_in_bounds(v@, VEL_LIMIT as int),
    ensures
        r@ == displacement_model(v@, dt as int),
        vec_in_bounds(r@, 0x4500_0000_0000_0000),
{
    proof {
        lemma_displacement_bounds(v@.x, dt as int);
        lemma_displacement_bounds(v@.y, dt as int);
        lemma_displacement_bounds(v@.z, dt as int);
    }
    Vec3Fx { x: fx_mul(v.x, dt), y: fx_mul(v.y, dt), z: fx_mul(v.z, dt) }
}

proof fn lemma_displacement_bounds(v: int, dt: int)
    requires
        -VEL_LIMIT <= v <= VEL_LIMIT,
        0 <= dt <= DT_LIMIT,
    ensures
        -0x4500_0000_0000_0000 <= fx_mul_spec(v, dt) <= 0x4500_0000_0000_0000,
{
    assert(-0x10_0000_0000_0000int * 0x4000_0000 <= v * dt <= 0x10_0000_0000_0000int * 0x4000_0000)
        by (nonlinear_arith)
        requires
            -0x10_0000_0000_0000 <= v <= 0x10_0000_0000_0000,
            0 <= dt <= 0x4000_0000,
    ;
    lemma_div_trunc_bounds(v * dt, SCALE as int, 0x10_0000_0000_0000int * 0x4000_0000);
    assert(0x10_0000_0000_0000int * 0x4000_0000 / (SCALE as int) <= 0x4500_0000_0000_0000);
}

/// The player after position integration: the displacement for this
/// tick is added to the position; velocity and grounding are untouched.
pub open spec fn position_next(p: PlayerM, dt: int) -> PlayerM {
    let d = displacement_model(p.velocity, dt);
    PlayerM {
        position: Vec3M {
            x: p.position.x + d.x,
            y: p.position.y + d.y,
            z: p.position.z + d.z,
        },
        velocity: p.velocity,
        is_grounded: p.is_grounded,
    }
}

/// Moves the player by `velocity * dt`.
pub fn integrate_position(p: &mut Player, dt: i64)
    requires
        0 <= dt <= DT_LIMIT,
        vec_in_bounds(old(p).velocity@, VEL_LIMIT as int),
        vec_in_bounds(old(p).position@, VEL_LIMIT as int),
    ensures
        final(p)@ == position_next(old(p)@, dt as int),
{
    let d = displacement(p.velocity, dt);
    p.position.x = p.position.x + d.x;
    p.position.y = p.position.y + d.y;
    p.position.z = p.position.z + d.z;
}

/// Ground contact under the height-threshold strategy: below the ground
/// height the player is snapped up onto it, stopped vertically and
/// grounded; strictly above it (including while jumping away from it)
/// the player is airborne; exactly at it nothing changes.
pub open spec fn ground_height_next(p: PlayerM, ground: int) -> PlayerM {
    if p.position.y < ground {
        PlayerM {
            position: Vec3M { x: p.position.x, y: ground, z: p.position.z },
            velocity: Vec3M { x: p.velocity.x, y: 0, z: p.velocity.z },
            is_grounded: true,
        }
    } else if p.position.y > ground {
        PlayerM { position: p.position, velocity: p.velocity, is_grounded: false }
    } else {
        p
    }
}

/// Resolves ground contact against a flat ground height.
pub fn resolve_ground_height(p: &mut Player, ground: i64)
    ensures
        final(p)@ == ground_height_next(old(p)@, ground as int),
        player_wf(old(p)@) ==> player_wf(final(p)@),
{
    if p.position.y < ground {
        p.position.y = ground;
        p.velocity.y = 0;
        p.is_grounded = true;
    } else if p.position.y > ground {
        p.is_grounded = false;
    }
}

/// Ground contact under the collision-query strategy: the externally
/// resolved position is adopted, grounding follows the reported
/// downward contact, and vertical velocity is zeroed only on a downward
/// contact (not on side or ceiling contacts).
pub open spec fn ground_collision_next(p: PlayerM, resolved: Vec3M, hit_below: bool) -> PlayerM {
    PlayerM {
        position: resolved,
        velocity: Vec3M {
            x: p.velocity.x,
            y: if hit_below {
                0
            } else {
                p.velocity.y
            },
            z: p.velocity.z,
        },
        is_grounded: hit_below,
    }
}

/// Adopts the position and downward-contact flag an external
/// collision-aware mover reported for this tick's motion request.
pub fn resolve_ground_collision(p: &mut Player, resolved: Vec3Fx, hit_below: bool)
    ensures
        final(p)@ == ground_collision_next(old(p)@, resolved@, hit_below),
        player_wf(final(p)@),
{
    p.position = resolved;
    if hit_below {
        p.velocity.y = 0;
    }
    p.is_grounded = hit_below;
}

} // verus!
