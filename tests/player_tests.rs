use tile_world::movement::should_player_move;

const MOVEMENT_DELAY: u64 = 500_000;

#[test]
fn test_should_player_move_not_moving() {
    let current_time = 1_000_000;
    let last_movement = 600_000;
    let is_moving = false;

    let result = should_player_move(current_time, last_movement, is_moving, MOVEMENT_DELAY);

    assert_eq!(result, false);
}

#[test]
fn test_should_player_move_with_delay() {
    let current_time = 1_500_000;
    let last_movement = 600_000;
    let is_moving = false;

    let result = should_player_move(current_time, last_movement, is_moving, MOVEMENT_DELAY);
    assert_eq!(result, true);
}

#[test]
fn test_should_player_move_still_moving() {
    let current_time = 1_000_000;
    let last_movement = 600_000;
    let is_moving = true;

    let result = should_player_move(current_time, last_movement, is_moving, MOVEMENT_DELAY);
    assert_eq!(result, true);
}

#[test]
fn should_player_move_at_exact_delay() {
    assert!(should_player_move(580_000, 500_000, false, 80_000));
    assert!(!should_player_move(579_999, 500_000, false, 80_000));
}

#[test]
fn should_player_move_with_clock_behind_last_look() {
    assert!(!should_player_move(100, 200, false, 0));
    assert!(should_player_move(100, 200, true, 0));
}
