use multiplayer_bevy::input::{MovementKeys, PlayerInput};

#[test]
fn keys_map_to_directions() {
    let keys = MovementKeys { key_a: true, arrow_up: true, ..MovementKeys::default() };
    let input = PlayerInput::from_keys(&keys);
    assert_eq!(input, PlayerInput { up: true, down: false, left: true, right: false });
}

#[test]
fn arrows_and_letters_are_equivalent() {
    let letters = MovementKeys { key_d: true, key_s: true, ..MovementKeys::default() };
    let arrows = MovementKeys { arrow_right: true, arrow_down: true, ..MovementKeys::default() };
    assert_eq!(PlayerInput::from_keys(&letters), PlayerInput::from_keys(&arrows));
}

#[test]
fn direction_of_single_keys() {
    let right = PlayerInput { right: true, ..PlayerInput::default() };
    let left = PlayerInput { left: true, ..PlayerInput::default() };
    let up = PlayerInput { up: true, ..PlayerInput::default() };
    let down = PlayerInput { down: true, ..PlayerInput::default() };
    assert_eq!(right.direction(), (1, 0));
    assert_eq!(left.direction(), (-1, 0));
    assert_eq!(up.direction(), (0, -1));
    assert_eq!(down.direction(), (0, 1));
}

#[test]
fn opposite_keys_cancel() {
    let all = PlayerInput { up: true, down: true, left: true, right: true };
    assert_eq!(all.direction(), (0, 0));
    assert_eq!(PlayerInput::default().direction(), (0, 0));
}
