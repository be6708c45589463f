use tile_world::animation::{AnimationConfig, AnimationEntry, AnimationTable, PlayerAnimationState};
use tile_world::movement::{
    get_next_animation, move_player, pressed_direction, travel_distance, Direction, MovementKeys, PlayerMotion,
};
use tile_world::selector::WorldPoint;

fn entry(first: usize, last: usize) -> AnimationEntry {
    AnimationEntry { first_frame: first, last_frame: last, frame_rate_fps: 7, flip_horizontal: false }
}

fn table() -> AnimationTable {
    AnimationTable {
        idle: entry(0, 7),
        idle_forward: entry(24, 31),
        idle_left: entry(8, 15),
        idle_right: entry(40, 47),
        walk_forward: entry(72, 79),
        walk_left: entry(56, 63),
        walk_right: entry(88, 95),
        walk_backward: AnimationEntry { first_frame: 48, last_frame: 50, frame_rate_fps: 10, flip_horizontal: true },
    }
}

const NONE: MovementKeys = MovementKeys { forward: false, left: false, backward: false, right: false };

#[test]
fn timer_period_from_fps() {
    assert_eq!(AnimationConfig::timer_from_fps(7), 142_857);
    assert_eq!(AnimationConfig::timer_from_fps(1), 1_000_000);
    let c = AnimationConfig::new(PlayerAnimationState::Idle, table());
    assert_eq!(c.frame_timer, 142_857);
    assert_eq!(c.get_current_frame_range(), entry(0, 7));
}

#[test]
fn advance_waits_for_the_timer() {
    let mut c = AnimationConfig::new(PlayerAnimationState::Idle, table());
    assert_eq!(c.advance(3, 100_000), 3);
    assert_eq!(c.frame_timer, 42_857);
    assert_eq!(c.advance(3, 42_857), 4);
    assert_eq!(c.frame_timer, 142_857);
}

#[test]
fn advance_steps_once_per_tick_however_long() {
    let mut c = AnimationConfig::new(PlayerAnimationState::Idle, table());
    assert_eq!(c.advance(2, 10_000_000), 3);
    assert_eq!(c.frame_timer, 142_857);
}

#[test]
fn advance_wraps_and_clamps() {
    let mut c = AnimationConfig::new(PlayerAnimationState::Idle, table());
    assert_eq!(c.advance(7, 200_000), 0);
    assert_eq!(c.advance(30, 200_000), 0);
    let mut frame = 0;
    for _ in 0..20 {
        frame = c.advance(frame, 142_857);
        assert!(frame <= 7);
    }
}

#[test]
fn set_state_same_keeps_timer() {
    let mut c = AnimationConfig::new(PlayerAnimationState::Idle, table());
    c.advance(0, 100_000);
    c.set_state(PlayerAnimationState::Idle);
    assert_eq!(c.frame_timer, 42_857);
    c.set_state(PlayerAnimationState::WalkBackward);
    assert_eq!(c.current_state, PlayerAnimationState::WalkBackward);
    assert_eq!(c.frame_timer, 100_000);
    assert_eq!(c.advance(5, 100_000), 48);
}

#[test]
fn key_priority() {
    let all = MovementKeys { forward: true, left: true, backward: true, right: true };
    assert_eq!(pressed_direction(all), Some(Direction::Forward));
    assert_eq!(pressed_direction(MovementKeys { forward: false, ..all }), Some(Direction::Left));
    assert_eq!(pressed_direction(MovementKeys { forward: false, left: false, ..all }), Some(Direction::Backward));
    assert_eq!(pressed_direction(MovementKeys { right: true, ..NONE }), Some(Direction::Right));
    assert_eq!(pressed_direction(NONE), None);
}

#[test]
fn next_animation_follows_keys_then_idles() {
    let mut c = AnimationConfig::new(PlayerAnimationState::Idle, table());
    get_next_animation(MovementKeys { left: true, right: true, ..NONE }, &mut c);
    assert_eq!(c.current_state, PlayerAnimationState::WalkLeft);
    get_next_animation(NONE, &mut c);
    assert_eq!(c.current_state, PlayerAnimationState::IdleLeft);
    get_next_animation(NONE, &mut c);
    assert_eq!(c.current_state, PlayerAnimationState::IdleLeft);
    get_next_animation(MovementKeys { backward: true, ..NONE }, &mut c);
    get_next_animation(NONE, &mut c);
    assert_eq!(c.current_state, PlayerAnimationState::Idle);
    get_next_animation(MovementKeys { forward: true, ..NONE }, &mut c);
    get_next_animation(NONE, &mut c);
    assert_eq!(c.current_state, PlayerAnimationState::IdleForward);
    get_next_animation(MovementKeys { right: true, ..NONE }, &mut c);
    get_next_animation(NONE, &mut c);
    assert_eq!(c.current_state, PlayerAnimationState::IdleRight);
}

#[test]
fn walking_moves_one_axis() {
    let mut p = WorldPoint { x: 10, y: 10 };
    assert!(move_player(MovementKeys { forward: true, right: true, ..NONE }, &mut p, 5));
    assert_eq!(p, WorldPoint { x: 10, y: 15 });
    assert!(move_player(MovementKeys { left: true, ..NONE }, &mut p, 5));
    assert_eq!(p, WorldPoint { x: 5, y: 15 });
    assert!(move_player(MovementKeys { backward: true, ..NONE }, &mut p, 5));
    assert_eq!(p, WorldPoint { x: 5, y: 10 });
    assert!(move_player(MovementKeys { right: true, ..NONE }, &mut p, 5));
    assert_eq!(p, WorldPoint { x: 10, y: 10 });
    assert!(!move_player(NONE, &mut p, 5));
    assert_eq!(p, WorldPoint { x: 10, y: 10 });
}

#[test]
fn travel_distance_at_speed() {
    assert_eq!(travel_distance(1_000_000, 1), 300);
    assert_eq!(travel_distance(16_667, 256), 1_280);
    assert_eq!(travel_distance(0, 256), 0);
}

#[test]
fn movement_is_debounced_from_standstill() {
    let mut m = PlayerMotion::new();
    let mut p = WorldPoint { x: 0, y: 0 };
    let w = MovementKeys { forward: true, ..NONE };
    m.handle_player_movement(50_000, w, &mut p, 3);
    assert_eq!(p, WorldPoint { x: 0, y: 0 });
    assert!(!m.is_moving);
    m.handle_player_movement(80_000, w, &mut p, 3);
    assert_eq!(p, WorldPoint { x: 0, y: 3 });
    assert!(m.is_moving);
    assert_eq!(m.last_movement, 80_000);
    m.handle_player_movement(90_000, w, &mut p, 3);
    assert_eq!(p, WorldPoint { x: 0, y: 6 });
    m.handle_player_movement(100_000, NONE, &mut p, 3);
    assert!(!m.is_moving);
    m.handle_player_movement(120_000, w, &mut p, 3);
    assert_eq!(p, WorldPoint { x: 0, y: 6 });
    assert_eq!(m.last_movement, 100_000);
}

#[test]
fn frames_cycle_when_every_tick_finishes() {
    let mut c = AnimationConfig::new(PlayerAnimationState::Idle, table());
    c.set_state(PlayerAnimationState::WalkBackward);
    let mut frame = 49;
    for k in 1..=7usize {
        frame = c.advance(frame, 100_000);
        assert_eq!(frame, 48 + (49 - 48 + k) % 3);
    }
}
