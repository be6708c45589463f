//! Player movement: which key wins, how far a tick moves, when input is
//! looked at again, and which animation state follows.
//!
//! Times are in microseconds; distances are in the caller's integer unit of
//! world space.
use vstd::prelude::*;
use crate::animation::{AnimationConfig, PlayerAnimationState};
use crate::selector::WorldPoint;

verus! {

/// Walking speed, in world units per second.
pub const SPEED: u64 = 300;

/// Least time between two looks at fresh input while standing, in
/// microseconds.
pub const MOVEMENT_DELAY: u64 = 80_000;

/// The movement keys held down this tick.
#[derive(Clone, Copy, Debug, PartialEq, Eq, Structural)]
pub struct MovementKeys {
    pub forward: bool,
    pub left: bool,
    pub backward: bool,
    pub right: bool,
}

/// A single walking direction.
#[derive(Clone, Copy, Debug, PartialEq, Eq, Structural)]
pub enum Direction {
    Forward,
    Left,
    Backward,
    Right,
}

/// The key that wins: forward, then left, then backward, then right.
pub open spec fn chosen_direction(keys: MovementKeys) -> Option<Direction> {
    if keys.forward {
        Some(Direction::Forward)
    } else if keys.left {
        Some(Direction::Left)
    } else if keys.backward {
        Some(Direction::Backward)
    } else if keys.right {
        Some(Direction::Right)
    } else {
        None
    }
}

/// `p` moved by `distance` in direction `d`; forward is up the y axis.
pub open spec fn moved(p: WorldPoint, d: Direction, distance: int) -> WorldPoint {
    match d {
        Direction::Forward => WorldPoint { x: p.x, y: (p.y + distance) as i64 },
        Direction::Left => WorldPoint { x: (p.x - distance) as i64, y: p.y },
        Direction::Backward => WorldPoint { x: p.x, y: (p.y - distance) as i64 },
        Direction::Right => WorldPoint { x: (p.x + distance) as i64, y: p.y },
    }
}

/// `distance` can be walked from `p` in any direction without leaving `i64`.
pub open spec fn room_to_move(p: WorldPoint, distance: int) -> bool {
    &&& 0 <= distance
    &&& i64::MIN + distance <= p.x <= i64::MAX - distance
    &&& i64::MIN + distance <= p.y <= i64::MAX - distance
}

/// The animation state that follows `current` with these keys held.
pub open spec fn next_animation(keys: MovementKeys, current: PlayerAnimationState) -> PlayerAnimationState {
    match chosen_direction(keys) {
        Some(Direction::Forward) => PlayerAnimationState::WalkForward,
        Some(Direction::Left) => PlayerAnimationState::WalkLeft,
        Some(Direction::Backward) => PlayerAnimationState::WalkBackward,
        Some(Direction::Right) => PlayerAnimationState::WalkRight,
        None => match current {
            PlayerAnimationState::WalkForward => PlayerAnimationState::IdleForward,
            PlayerAnimationState::WalkLeft => PlayerAnimationState::IdleLeft,
            PlayerAnimationState::WalkBackward => PlayerAnimationState::Idle,
            PlayerAnimationState::WalkRight => PlayerAnimationState::IdleRight,
            other => other,
        },
    }
}

/// The direction of the winning key, if any key is held.
pub fn pressed_direction(keys: MovementKeys) -> (r: Option<Direction>)
    ensures
        r == chosen_direction(keys),
{
    if keys.forward {
        Some(Direction::Forward)
    } else if keys.left {
        Some(Direction::Left)
    } else if keys.backward {
        Some(Direction::Backward)
    } else if keys.right {
        Some(Direction::Right)
    } else {
        None
    }
}

/// Whether input is looked at this tick: always while already moving, else
/// once at least `delay` has passed since the last look.
pub fn should_player_move(current_time: u64, last_movement: u64, is_moving: bool, delay: u64) -> (r: bool)
    ensures
        r == (is_moving || current_time - last_movement >= delay),
{
    is_moving || (current_time >= last_movement && current_time - last_movement >= delay)
}

/// How far the player walks in `delta` microseconds at `SPEED`, with
/// `units_per_world_unit` units to a world unit, rounded down.
pub fn travel_distance(delta: u32, units_per_world_unit: u32) -> (r: i64)
    ensures
        r == SPEED * units_per_world_unit * delta / 1_000_000,
        r >= 0,
{
    proof {
        assert(0 <= SPEED * units_per_world_unit * delta <= 300 * 0xffff_ffff * 0xffff_ffff)
            by (nonlinear_arith)
            requires
                0 <= units_per_world_unit <= 0xffff_ffff,
                0 <= delta <= 0xffff_ffff,
                SPEED == 300,
        ;
    }
    let scaled: u128 = SPEED as u128 * units_per_world_unit as u128 * delta as u128;
    (scaled / 1_000_000) as i64
}

/// Moves `position` by `distance` in the winning key's direction and tells
/// whether it moved; with no key held it stays.
pub fn move_player(keys: MovementKeys, position: &mut WorldPoint, distance: i64) -> (r: bool)
    requires
        room_to_move(*old(position), distance as int),
    ensures
        r == (chosen_direction(keys) is Some),
        chosen_direction(keys) is None ==> *final(position) == *old(position),
        chosen_direction(keys) is Some ==> *final(position) == moved(
            *old(position),
            chosen_direction(keys)->0,
            distance as int,
        ),
{
    match pressed_direction(keys) {
        Some(Direction::Forward) => {
            position.y = position.y + distance;
            true
        },
        Some(Direction::Left) => {
            position.x = position.x - distance;
            true
        },
        Some(Direction::Backward) => {
            position.y = position.y - distance;
            true
        },
        Some(Direction::Right) => {
            position.x = position.x + distance;
            true
        },
        None => false,
    }
}

/// Moves the animation to the state that follows its current one with these
/// keys held.
pub fn get_next_animation(keys: MovementKeys, animation: &mut AnimationConfig)
    requires
        old(animation).wf(),
    ensures
        final(animation).wf(),
        final(animation).animations == old(animation).animations,
        final(animation).current_state == next_animation(keys, old(animation).current_state),
        final(animation).current_state == old(animation).current_state
            ==> final(animation).frame_timer == old(animation).frame_timer,
{
    let new_state = match pressed_direction(keys) {
        Some(Direction::Forward) => PlayerAnimationState::WalkForward,
        Some(Direction::Left) => PlayerAnimationState::WalkLeft,
        Some(Direction::Backward) => PlayerAnimationState::WalkBackward,
        Some(Direction::Right) => PlayerAnimationState::WalkRight,
        None => match animation.current_state {
            PlayerAnimationState::WalkForward => PlayerAnimationState::IdleForward,
            PlayerAnimationState::WalkLeft => PlayerAnimationState::IdleLeft,
            PlayerAnimationState::WalkBackward => PlayerAnimationState::Idle,
            PlayerAnimationState::WalkRight => PlayerAnimationState::IdleRight,
            other => other,
        },
    };
    animation.set_state(new_state);
}

/// What the movement controller remembers between ticks.
#[derive(Clone, Copy, Debug, PartialEq, Eq, Structural)]
pub struct PlayerMotion {
    /// When input was last looked at.
    pub last_movement: u64,
    /// Whether the player moved at that look.
    pub is_moving: bool,
}

impl PlayerMotion {
    /// Standing still, with input last looked at at time 0.
    pub fn new() -> (r: PlayerMotion)
        ensures
            r.last_movement == 0,
            !r.is_moving,
    {
        PlayerMotion { last_movement: 0, is_moving: false }
    }

    /// One tick at time `current_time`: when `should_player_move` allows it
    /// with `MOVEMENT_DELAY`, moves `position` by `distance` after the keys,
    /// records whether it moved and the time; otherwise nothing changes.
    pub fn handle_player_movement(
        &mut self,
        current_time: u64,
        keys: MovementKeys,
        position: &mut WorldPoint,
        distance: i64,
    )
        requires
            room_to_move(*old(position), distance as int),
        ensures
            !(old(self).is_moving || current_time - old(self).last_movement >= MOVEMENT_DELAY)
                ==> *final(self) == *old(self) && *final(position) == *old(position),
            (old(self).is_moving || current_time - old(self).last_movement >= MOVEMENT_DELAY)
                ==> final(self).last_movement == current_time
                && final(self).is_moving == (chosen_direction(keys) is Some)
                && (chosen_direction(keys) is None ==> *final(position) == *old(position))
                && (chosen_direction(keys) is Some ==> *final(position) == moved(
                *old(position),
                chosen_direction(keys)->0,
                distance as int,
            )),
    {
        if !should_player_move(current_time, self.last_movement, self.is_moving, MOVEMENT_DELAY) {
            return;
        }
        self.is_moving = move_player(keys, position, distance);
        self.last_movement = current_time;
    }
}

} // verus!
