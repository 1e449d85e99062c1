//! The player's state and what it shows on each frame.
use vstd::prelude::*;
use macroquad_platformer::Actor;
use crate::input::FrameInput;
use crate::physics::{fall_fits, fall_speed, run_speed, Velocity};

verus! {

/// The animation shown for the player on one frame.
#[derive(Clone, Copy, Debug, PartialEq, Eq, Structural)]
pub enum AnimationState {
    Walk,
    Idle,
    Jump,
}

/// The name of an animation.
pub open spec fn animation_name(a: AnimationState) -> Seq<char> {
    match a {
        AnimationState::Walk => "walk"@,
        AnimationState::Idle => "idle"@,
        AnimationState::Jump => "jump"@,
    }
}

/// The position of an animation in the player's sprite sheet.
pub open spec fn animation_index(a: AnimationState) -> int {
    match a {
        AnimationState::Walk => 0,
        AnimationState::Idle => 1,
        AnimationState::Jump => 2,
    }
}

impl AnimationState {
    /// The animation's position in the player's sprite sheet: walk, idle,
    /// jump.
    pub fn index(&self) -> (r: usize)
        ensures
            r == animation_index(*self),
    {
        match self {
            AnimationState::Walk => 0,
            AnimationState::Idle => 1,
            AnimationState::Jump => 2,
        }
    }

    /// The animation's name.
    pub fn as_str(&self) -> (r: &str)
        ensures
            r@ == animation_name(*self),
    {
        match self {
            AnimationState::Walk => "walk",
            AnimationState::Idle => "idle",
            AnimationState::Jump => "jump",
        }
    }
}

/// Width of the player's sprite, in world units.
pub const SPRITE_WIDTH: i64 = 32;

/// The animation for a horizontal speed and a ground contact: jumping while
/// airborne, else walking while moving, else idle.
pub open spec fn animation_for(vx: int, on_ground: bool) -> AnimationState {
    if !on_ground {
        AnimationState::Jump
    } else if vx != 0 {
        AnimationState::Walk
    } else {
        AnimationState::Idle
    }
}

/// The facing after a frame with horizontal speed `vx`: it follows the
/// direction of motion, and stays as it was while standing still.
pub open spec fn facing_after(vx: int, facing_left: bool) -> bool {
    if vx > 0 {
        false
    } else if vx < 0 {
        true
    } else {
        facing_left
    }
}

/// The signed width of the drawn sprite: negative when mirrored.
pub open spec fn drawn_width(facing_left: bool) -> int {
    if facing_left {
        -SPRITE_WIDTH
    } else {
        SPRITE_WIDTH as int
    }
}

/// How far right of the player's position the sprite is anchored: a mirrored
/// sprite is anchored one sprite width further, so it covers the same cells.
pub open spec fn anchor_offset(facing_left: bool) -> int {
    if facing_left {
        SPRITE_WIDTH as int
    } else {
        0
    }
}

/// What a frame shows of the player.
#[derive(Clone, Copy, Debug, PartialEq, Eq, Structural)]
pub struct Resolution {
    pub animation: AnimationState,
    /// The facing kept for the next frame.
    pub facing_left: bool,
    /// Signed width of the destination rectangle.
    pub width: i64,
    /// Added to the player's x position to anchor the destination rectangle.
    pub x_offset: i64,
}

/// The exact resolution for a horizontal speed, a ground contact and the
/// previous facing.
pub open spec fn resolution_for(vx: int, on_ground: bool, facing_left: bool) -> Resolution {
    let f = facing_after(vx, facing_left);
    Resolution {
        animation: animation_for(vx, on_ground),
        facing_left: f,
        width: drawn_width(f) as i64,
        x_offset: anchor_offset(f) as i64,
    }
}

/// Picks the animation, the facing and the draw placement for a frame. An
/// airborne player shows the jump animation and still turns with its
/// horizontal speed.
pub fn resolve_state(vx: i64, on_ground: bool, facing_left: bool) -> (r: Resolution)
    ensures
        r == resolution_for(vx as int, on_ground, facing_left),
        vx > 0 && on_ground ==> r.animation == AnimationState::Walk && !r.facing_left
            && r.width == SPRITE_WIDTH && r.x_offset == 0,
        vx < 0 && on_ground ==> r.animation == AnimationState::Walk && r.facing_left
            && r.width == -SPRITE_WIDTH && r.x_offset == SPRITE_WIDTH,
        vx == 0 ==> r.facing_left == facing_left,
        vx == 0 && on_ground ==> r.animation == AnimationState::Idle,
        !on_ground ==> r.animation == AnimationState::Jump,
{
    let animation = if !on_ground {
        AnimationState::Jump
    } else if vx != 0 {
        AnimationState::Walk
    } else {
        AnimationState::Idle
    };
    let left = if vx > 0 {
        false
    } else if vx < 0 {
        true
    } else {
        facing_left
    };
    if left {
        Resolution { animation, facing_left: left, width: -SPRITE_WIDTH, x_offset: SPRITE_WIDTH }
    } else {
        Resolution { animation, facing_left: left, width: SPRITE_WIDTH, x_offset: 0 }
    }
}

/// The facing after consecutive frames with horizontal speeds `vxs`.
pub open spec fn facing_over(vxs: Seq<int>, facing_left: bool) -> bool
    decreases vxs.len(),
{
    if vxs.len() == 0 {
        facing_left
    } else {
        facing_after(vxs.last(), facing_over(vxs.drop_last(), facing_left))
    }
}

/// Facing persists: after frames of standing still, the player faces the way
/// it moved on the last frame where it moved.
pub proof fn lemma_facing_follows_last_move(vxs: Seq<int>, facing_left: bool, k: int)
    requires
        0 <= k < vxs.len(),
        vxs[k] != 0,
        forall|j: int| k < j < vxs.len() ==> #[trigger] vxs[j] == 0,
    ensures
        facing_over(vxs, facing_left) == (vxs[k] < 0),
    decreases vxs.len(),
{
    let rest = vxs.drop_last();
    if k < vxs.len() - 1 {
        assert forall|j: int| k < j < rest.len() implies #[trigger] rest[j] == 0 by {
            assert(rest[j] == vxs[j]);
        }
        lemma_facing_follows_last_move(rest, facing_left, k);
        assert(vxs.last() == 0);
    }
}

/// The player: a handle to its actor in the collision world, its velocity
/// and the way it faces.
pub struct Player {
    pub collider: Actor,
    pub speed: Velocity,
    pub facing_left: bool,
}

/// What one frame of the player yields: what to draw, and how far to move
/// along each axis, horizontal first, in 10^-12 world units.
#[derive(Clone, Copy, Debug, PartialEq, Eq, Structural)]
pub struct Frame {
    pub resolution: Resolution,
    pub dx: i128,
    pub dy: i128,
}

impl Player {
    /// A player at rest, facing right.
    pub fn new(collider: Actor) -> (r: Player)
        ensures
            r.collider == collider,
            r.speed.x == 0,
            r.speed.y == 0,
            !r.facing_left,
    {
        Player { collider, speed: Velocity::zero(), facing_left: false }
    }

    /// Resolves what this frame shows from the current velocity, and keeps
    /// the new facing.
    pub fn resolve(&mut self, on_ground: bool) -> (r: Resolution)
        ensures
            r == resolution_for(old(self).speed.x as int, on_ground, old(self).facing_left),
            final(self).facing_left == r.facing_left,
            final(self).speed == old(self).speed,
            final(self).collider == old(self).collider,
    {
        let r = resolve_state(self.speed.x, on_ground, self.facing_left);
        self.facing_left = r.facing_left;
        r
    }

    /// One frame of `dt` microseconds: resolve what is drawn from the
    /// velocity the frame starts with, then update the velocity from the
    /// input, then report the distance that velocity covers.
    pub fn advance(&mut self, on_ground: bool, input: FrameInput, dt: u32) -> (r: Frame)
        requires
            fall_fits(old(self).speed.y as int, on_ground, dt as int),
        ensures
            r.resolution == resolution_for(
                old(self).speed.x as int,
                on_ground,
                old(self).facing_left,
            ),
            final(self).facing_left == r.resolution.facing_left,
            final(self).speed.x == run_speed(input.right, input.left),
            final(self).speed.y == fall_speed(old(self).speed.y as int, on_ground, input.jump, dt as int),
            final(self).collider == old(self).collider,
            r.dx == final(self).speed.x * dt,
            r.dy == final(self).speed.y * dt,
    {
        let resolution = self.resolve(on_ground);
        self.speed = self.speed.step(on_ground, input, dt);
        let (dx, dy) = self.speed.travel(dt);
        Frame { resolution, dx, dy }
    }
}

} // verus!
