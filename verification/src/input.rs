use vstd::prelude::*;

verus! {

/// Which movement keys are held down this frame.
#[derive(Clone, Copy, Debug, Default, PartialEq, Eq)]
pub struct MovementKeys {
    pub key_a: bool,
    pub key_d: bool,
    pub key_w: bool,
    pub key_s: bool,
    pub arrow_left: bool,
    pub arrow_right: bool,
    pub arrow_up: bool,
    pub arrow_down: bool,
}

/// The movement a player asks for: one flag per direction.
#[derive(Clone, Copy, Debug, Default, PartialEq, Eq)]
pub struct PlayerInput {
    pub up: bool,
    pub down: bool,
    pub left: bool,
    pub right: bool,
}

/// `1` for a held key, `0` otherwise.
pub open spec fn key_value(pressed: bool) -> int {
    if pressed {
        1
    } else {
        0
    }
}

impl PlayerInput {
    /// Reads the input from the keyboard: A or the left arrow moves left, D or
    /// the right arrow right, W or the up arrow up, S or the down arrow down.
    pub fn from_keys(keys: &MovementKeys) -> (input: PlayerInput)
        ensures
            input.left == (keys.key_a || keys.arrow_left),
            input.right == (keys.key_d || keys.arrow_right),
            input.up == (keys.key_w || keys.arrow_up),
            input.down == (keys.key_s || keys.arrow_down),
    {
        PlayerInput {
            left: keys.key_a || keys.arrow_left,
            right: keys.key_d || keys.arrow_right,
            up: keys.key_w || keys.arrow_up,
            down: keys.key_s || keys.arrow_down,
        }
    }

    /// The direction of movement on the two axes: `right - left` and
    /// `down - up`, each `-1`, `0` or `1`.
    pub fn direction(&self) -> (dir: (i8, i8))
        ensures
            dir.0 == key_value(self.right) - key_value(self.left),
            dir.1 == key_value(self.down) - key_value(self.up),
    {
        let right: i8 = if self.right { 1 } else { 0 };
        let left: i8 = if self.left { 1 } else { 0 };
        let down: i8 = if self.down { 1 } else { 0 };
        let up: i8 = if self.up { 1 } else { 0 };
        (right - left, down - up)
    }
}

/// Each axis of a direction is `-1`, `0` or `1`; holding both keys of an
/// axis, or neither, leaves that axis still; swapping the keys of an axis
/// reverses it.
pub proof fn lemma_direction_is_unit_and_antisymmetric(input: PlayerInput)
    ensures
        -1 <= key_value(input.right) - key_value(input.left) <= 1,
        -1 <= key_value(input.down) - key_value(input.up) <= 1,
        input.left == input.right ==> key_value(input.right) - key_value(input.left) == 0,
        input.up == input.down ==> key_value(input.down) - key_value(input.up) == 0,
        key_value(input.left) - key_value(input.right) == -(key_value(input.right) - key_value(
            input.left,
        )),
        key_value(input.up) - key_value(input.down) == -(key_value(input.down) - key_value(
            input.up,
        )),
{
}

} // verus!
