//! From the keyboard to the two players' intents.

use bevy::input::keyboard::KeyCode;
use bevy::input::Input;
use std::hash::Hash;
use vstd::prelude::*;

verus! {

/// The four keys that steer the paddles: `W` and `S` move player 0 up and
/// down, `I` and `K` do the same for player 1.
#[derive(Clone, Copy, Debug, PartialEq, Eq, Structural)]
pub enum Key {
    W,
    S,
    I,
    K,
}

/// Where a player wants the paddle to go during a tick.
#[derive(Clone, Copy, Debug, PartialEq, Eq, Structural)]
pub enum Intent {
    Down,
    Stay,
    Up,
}

/// The intents of both players for one tick.
#[derive(Clone, Copy, Debug, PartialEq, Eq, Structural)]
pub struct Intents {
    pub player0: Intent,
    pub player1: Intent,
}

/// bevy's `Input<T>`, the set of buttons that are held down. Its fields stay
/// hidden; the library only passes it on.
#[verifier::external_type_specification]
#[verifier::external_body]
#[verifier::reject_recursive_types(T)]
pub struct ExInput<T: Copy + Eq + Hash + Send + Sync + 'static>(Input<T>);

/// bevy's `KeyCode`, the name of a key on the keyboard.
#[verifier::external_type_specification]
#[verifier::external_body]
pub struct ExKeyCode(KeyCode);

/// The steering keys that `input` holds as pressed.
pub uninterp spec fn held_keys(input: Input<KeyCode>) -> Set<Key>;

/// Calls bevy's `Input::pressed` with the key code that `key` stands for.
/// That method looks the code up in the set of pressed keys, so the answer
/// says whether `key` is among the held steering keys; nothing here is
/// proved.
#[verifier::external_body]
fn key_held(input: &Input<KeyCode>, key: Key) -> (held: bool)
    ensures
        held == held_keys(*input).contains(key),
{
    input.pressed(
        match key {
            Key::W => KeyCode::W,
            Key::S => KeyCode::S,
            Key::I => KeyCode::I,
            Key::K => KeyCode::K,
        },
    )
}

/// 1 where `held`, else 0.
pub open spec fn pressure(held: bool) -> int {
    if held {
        1
    } else {
        0
    }
}

impl Intent {
    /// The direction as a number: -1 for down, 0 for staying, +1 for up.
    pub open spec fn value(self) -> int {
        match self {
            Intent::Down => -1,
            Intent::Stay => 0,
            Intent::Up => 1,
        }
    }

    /// The intent of a player whose up key and down key are held or not:
    /// each held key pushes its way, and two held keys cancel.
    pub open spec fn of_keys(up: bool, down: bool) -> Intent {
        if up && !down {
            Intent::Up
        } else if down && !up {
            Intent::Down
        } else {
            Intent::Stay
        }
    }

    /// Executable form of [`Intent::of_keys`].
    pub fn from_keys(up: bool, down: bool) -> (intent: Intent)
        ensures
            intent == Intent::of_keys(up, down),
            intent.value() == pressure(up) - pressure(down),
    {
        if up && !down {
            Intent::Up
        } else if down && !up {
            Intent::Down
        } else {
            Intent::Stay
        }
    }

    /// Executable form of [`Intent::value`].
    pub fn sign(&self) -> (v: i64)
        ensures
            v == self.value(),
    {
        match self {
            Intent::Down => -1,
            Intent::Stay => 0,
            Intent::Up => 1,
        }
    }
}

impl Intents {
    /// The intents that follow from the set of held steering keys.
    pub open spec fn of_held(held: Set<Key>) -> Intents {
        Intents {
            player0: Intent::of_keys(held.contains(Key::W), held.contains(Key::S)),
            player1: Intent::of_keys(held.contains(Key::I), held.contains(Key::K)),
        }
    }

    /// The intents when each of the four steering keys is held or not.
    pub fn from_keys(w: bool, s: bool, i: bool, k: bool) -> (intents: Intents)
        ensures
            intents.player0 == Intent::of_keys(w, s),
            intents.player1 == Intent::of_keys(i, k),
    {
        Intents { player0: Intent::from_keys(w, s), player1: Intent::from_keys(i, k) }
    }

    /// The intent of the player who owns paddle `owner`. Only owners 0 and 1
    /// have keys; a paddle of any other owner is never steered.
    pub open spec fn of_owner(self, owner: u8) -> Intent {
        if owner == 0 {
            self.player0
        } else if owner == 1 {
            self.player1
        } else {
            Intent::Stay
        }
    }

    /// Executable form of [`Intents::of_owner`].
    pub fn for_owner(&self, owner: u8) -> (intent: Intent)
        ensures
            intent == self.of_owner(owner),
    {
        if owner == 0 {
            self.player0
        } else if owner == 1 {
            self.player1
        } else {
            Intent::Stay
        }
    }
}

/// Reads both players' intents off the keyboard state.
pub fn read_intents(input: &Input<KeyCode>) -> (intents: Intents)
    ensures
        intents == Intents::of_held(held_keys(*input)),
{
    let w = key_held(input, Key::W);
    let s = key_held(input, Key::S);
    let i = key_held(input, Key::I);
    let k = key_held(input, Key::K);
    Intents::from_keys(w, s, i, k)
}

} // verus!
