//! Velocity integration for one frame.
//!
//! Speeds are kept in micro-units per second and frame durations in
//! microseconds, so gravity, running and jumping are exact integer steps.
//! A distance travelled is a speed times a duration, which is in units of
//! 10^-12 world units.
use vstd::prelude::*;
use crate::input::FrameInput;

verus! {

/// Micro-units in one world unit, and microseconds in one second.
pub const MICROS: i64 = 1_000_000;

/// Downward acceleration, in world units per second squared. In the scale
/// used here it is also the speed gained per microsecond, in micro-units per
/// second.
pub const GRAVITY: i64 = 500;

/// Horizontal speed while a direction is held, in micro-units per second.
pub const RUN_SPEED: i64 = 100 * MICROS;

/// Upward speed given by a jump, in micro-units per second.
pub const JUMP_SPEED: i64 = 260 * MICROS;

/// The player's velocity, in micro-units per second; `y` grows downward.
#[derive(Clone, Copy, Debug, PartialEq, Eq, Structural)]
pub struct Velocity {
    pub x: i64,
    pub y: i64,
}

/// Horizontal speed for the held directions: right wins over left.
pub open spec fn run_speed(right: bool, left: bool) -> int {
    if right {
        RUN_SPEED as int
    } else if left {
        -(RUN_SPEED as int)
    } else {
        0
    }
}

/// Vertical speed after one frame of `dt` microseconds: gravity pulls while
/// airborne, a jump started on the ground sets the upward speed.
pub open spec fn fall_speed(vy: int, on_ground: bool, jump: bool, dt: int) -> int {
    if !on_ground {
        vy + GRAVITY * dt
    } else if jump {
        -(JUMP_SPEED as int)
    } else {
        vy
    }
}

/// Whether the new vertical speed of a frame fits the machine integer.
pub open spec fn fall_fits(vy: int, on_ground: bool, dt: int) -> bool {
    on_ground || vy + GRAVITY * dt <= i64::MAX
}

/// Vertical speed after consecutive airborne frames of `dt` microseconds,
/// with the jump button on each frame as `jumps` says.
pub open spec fn airborne_speed(vy: int, jumps: Seq<bool>, dt: int) -> int
    decreases jumps.len(),
{
    if jumps.len() == 0 {
        vy
    } else {
        airborne_speed(fall_speed(vy, false, jumps[0], dt), jumps.drop_first(), dt)
    }
}

/// While airborne, gravity adds the same speed on every frame and nothing
/// caps it: after `n` frames of `dt` the vertical speed has grown by
/// `n * GRAVITY * dt`, whatever the jump button does.
pub proof fn lemma_gravity_accumulates(vy: int, jumps: Seq<bool>, dt: int)
    ensures
        airborne_speed(vy, jumps, dt) == vy + jumps.len() * GRAVITY * dt,
    decreases jumps.len(),
{
    let n = jumps.len() as int;
    let g = GRAVITY as int;
    if n == 0 {
        assert(n * g * dt == 0) by (nonlinear_arith)
            requires
                n == 0,
        ;
    } else {
        let rest = jumps.drop_first();
        lemma_gravity_accumulates(vy + g * dt, rest, dt);
        assert(airborne_speed(vy, jumps, dt) == airborne_speed(vy + g * dt, rest, dt));
        assert(rest.len() * g * dt + g * dt == n * g * dt) by (nonlinear_arith)
            requires
                rest.len() == n - 1,
        ;
    }
}

/// The horizontal speed for the held directions.
pub fn horizontal_speed(right: bool, left: bool) -> (r: i64)
    ensures
        r == run_speed(right, left),
{
    if right {
        RUN_SPEED
    } else if left {
        -RUN_SPEED
    } else {
        0
    }
}

impl Velocity {
    /// At rest.
    pub fn zero() -> (r: Velocity)
        ensures
            r.x == 0,
            r.y == 0,
    {
        Velocity { x: 0, y: 0 }
    }

    /// The velocity after a frame of `dt` microseconds: the horizontal speed
    /// is set from the held directions, the vertical one follows `fall_speed`.
    pub fn step(&self, on_ground: bool, input: FrameInput, dt: u32) -> (r: Velocity)
        requires
            fall_fits(self.y as int, on_ground, dt as int),
        ensures
            r.x == run_speed(input.right, input.left),
            r.y == fall_speed(self.y as int, on_ground, input.jump, dt as int),
    {
        let mut y = self.y;
        if !on_ground {
            y = y + GRAVITY * (dt as i64);
        }
        let x = horizontal_speed(input.right, input.left);
        if input.jump && on_ground {
            y = -JUMP_SPEED;
        }
        Velocity { x, y }
    }

    /// The distance covered in `dt` microseconds along each axis, in
    /// 10^-12 world units.
    pub fn travel(&self, dt: u32) -> (r: (i128, i128))
        ensures
            r.0 == self.x * dt,
            r.1 == self.y * dt,
    {
        assert(-0x8000_0000_0000_0000 * 0x1_0000_0000 <= self.x * dt <= 0x7fff_ffff_ffff_ffff * 0x1_0000_0000) by (nonlinear_arith)
            requires
                i64::MIN <= self.x <= i64::MAX,
                0 <= dt <= u32::MAX,
        ;
        assert(-0x8000_0000_0000_0000 * 0x1_0000_0000 <= self.y * dt <= 0x7fff_ffff_ffff_ffff * 0x1_0000_0000) by (nonlinear_arith)
            requires
                i64::MIN <= self.y <= i64::MAX,
                0 <= dt <= u32::MAX,
        ;
        ((self.x as i128) * (dt as i128), (self.y as i128) * (dt as i128))
    }
}

} // verus!
