use macroquad::math::vec2;
use macroquad_platformer::{Tile, World};
use platformer::input::{FrameInput, JumpButton};
use platformer::physics::{horizontal_speed, Velocity, GRAVITY, JUMP_SPEED, RUN_SPEED};
use platformer::player::{resolve_state, AnimationState, Player, SPRITE_WIDTH};
use platformer::world::tile_layer;

const FRAME_60HZ: u32 = 16_667;

fn idle() -> FrameInput {
    FrameInput { right: false, left: false, jump: false }
}

fn new_player() -> Player {
    let mut world = World::new();
    Player::new(world.add_actor(vec2(60.0, 250.0), 32, 32))
}

#[test]
fn animation_names_and_indices() {
    assert_eq!(AnimationState::Walk.as_str(), "walk");
    assert_eq!(AnimationState::Idle.as_str(), "idle");
    assert_eq!(AnimationState::Jump.as_str(), "jump");
    assert_eq!(AnimationState::Walk.index(), 0);
    assert_eq!(AnimationState::Idle.index(), 1);
    assert_eq!(AnimationState::Jump.index(), 2);
}

#[test]
fn moving_right_on_ground_walks_unmirrored() {
    for facing in [false, true] {
        let r = resolve_state(RUN_SPEED, true, facing);
        assert_eq!(r.animation, AnimationState::Walk);
        assert!(!r.facing_left);
        assert_eq!(r.width, 32);
        assert_eq!(r.x_offset, 0);
    }
}

#[test]
fn moving_left_on_ground_walks_mirrored() {
    for facing in [false, true] {
        let r = resolve_state(-1, true, facing);
        assert_eq!(r.animation, AnimationState::Walk);
        assert!(r.facing_left);
        assert_eq!(r.width, -SPRITE_WIDTH);
        assert_eq!(r.x_offset, SPRITE_WIDTH);
    }
}

#[test]
fn standing_still_keeps_facing() {
    let r = resolve_state(0, true, true);
    assert_eq!(r.animation, AnimationState::Idle);
    assert!(r.facing_left);
    assert_eq!(r.width, -32);
    assert_eq!(r.x_offset, 32);
    let r = resolve_state(0, true, false);
    assert_eq!(r.animation, AnimationState::Idle);
    assert!(!r.facing_left);
    assert_eq!(r.width, 32);
    assert_eq!(r.x_offset, 0);
}

#[test]
fn airborne_shows_jump_and_still_turns() {
    let r = resolve_state(RUN_SPEED, false, true);
    assert_eq!(r.animation, AnimationState::Jump);
    assert!(!r.facing_left);
    let r = resolve_state(-RUN_SPEED, false, false);
    assert_eq!(r.animation, AnimationState::Jump);
    assert!(r.facing_left);
    assert_eq!(r.width, -32);
    let r = resolve_state(0, false, true);
    assert_eq!(r.animation, AnimationState::Jump);
    assert!(r.facing_left);
}

#[test]
fn facing_persists_through_idle_move_idle() {
    let mut p = new_player();
    for vx in [0, 0, -RUN_SPEED, 0, 0] {
        p.speed.x = vx;
        p.resolve(true);
    }
    assert!(p.facing_left);
    for vx in [RUN_SPEED, 0, 0] {
        p.speed.x = vx;
        p.resolve(true);
    }
    assert!(!p.facing_left);
}

#[test]
fn new_player_is_at_rest_facing_right() {
    let p = new_player();
    assert_eq!(p.speed, Velocity { x: 0, y: 0 });
    assert!(!p.facing_left);
}

#[test]
fn run_speed_follows_held_direction() {
    assert_eq!(horizontal_speed(true, false), 100_000_000);
    assert_eq!(horizontal_speed(false, true), -100_000_000);
    assert_eq!(horizontal_speed(true, true), 100_000_000);
    assert_eq!(horizontal_speed(false, false), 0);
}

#[test]
fn gravity_accumulates_linearly() {
    let mut v = Velocity::zero();
    for _ in 0..10 {
        v = v.step(false, idle(), FRAME_60HZ);
    }
    assert_eq!(v.y, 10 * GRAVITY * FRAME_60HZ as i64);
    assert_eq!(v.y, 83_335_000);
    let units = v.y as f64 / 1e6;
    assert!((units - 83.33).abs() < 0.01);
}

#[test]
fn jump_in_the_air_does_nothing() {
    let v = Velocity { x: 0, y: 1_000 };
    let input = FrameInput { right: false, left: false, jump: true };
    assert_eq!(v.step(false, input, 1_000).y, 1_000 + 500 * 1_000);
}

#[test]
fn step_on_ground_keeps_vertical_speed() {
    let v = Velocity { x: 7, y: 1_234 };
    let r = v.step(true, FrameInput { right: false, left: true, jump: false }, FRAME_60HZ);
    assert_eq!(r, Velocity { x: -RUN_SPEED, y: 1_234 });
}

#[test]
fn held_jump_gives_one_impulse() {
    let mut button = JumpButton::new();
    let mut p = new_player();
    let mut impulses = 0;
    for _ in 0..5 {
        p.speed.y = 0;
        let input = FrameInput { right: false, left: false, jump: button.press(true) };
        p.advance(true, input, FRAME_60HZ);
        if p.speed.y == -JUMP_SPEED {
            impulses += 1;
        }
    }
    assert_eq!(impulses, 1);
    assert!(!button.press(false));
    assert!(button.press(true));
}

#[test]
fn jump_from_rest_moves_up() {
    let mut p = new_player();
    let input = FrameInput { right: false, left: false, jump: true };
    let frame = p.advance(true, input, FRAME_60HZ);
    assert_eq!(p.speed.y, -260_000_000);
    assert_eq!(frame.dx, 0);
    assert_eq!(frame.dy, -260_000_000i128 * 16_667);
    assert_eq!(frame.resolution.animation, AnimationState::Idle);
    let units = frame.dy as f64 / 1e12;
    assert!((units + 4.33).abs() < 0.01);
}

#[test]
fn travel_scales_with_duration() {
    let v = Velocity { x: -3, y: i64::MAX };
    assert_eq!(v.travel(u32::MAX), (-3 * u32::MAX as i128, i64::MAX as i128 * u32::MAX as i128));
}

#[test]
fn tile_layer_marks_occupied_cells_solid() {
    let layer = tile_layer(&vec![true, false, false, true]);
    assert_eq!(layer, vec![Tile::Solid, Tile::Empty, Tile::Empty, Tile::Solid]);
    assert!(tile_layer(&vec![]).is_empty());
}

#[test]
fn horizontal_move_stops_at_solid_column() {
    let mut world = World::new();
    world.add_static_tiled_layer(tile_layer(&vec![false, false, true, false]), 32., 32., 4, 1);
    let actor = world.add_actor(vec2(20.0, 0.0), 32, 32);
    world.move_h(actor, 50.0);
    assert_eq!(world.actor_pos(actor).x, 32.0);
}
