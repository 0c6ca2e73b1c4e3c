//! Keys, the bindings of a player, and the set of keys held during a tick.

use crate::movement::HeldDirections;
use crate::translation::wasd_direction;
use crate::translation::Direction;
use vstd::prelude::*;

verus! {

/// The physical key W.
pub const KEY_W: u32 = 87;

/// The physical key A.
pub const KEY_A: u32 = 65;

/// The physical key S.
pub const KEY_S: u32 = 83;

/// The physical key D.
pub const KEY_D: u32 = 68;

/// The keys that one player steers with, one key for each logical direction.
#[derive(Clone, Copy, Debug, PartialEq, Eq, Structural)]
pub struct KeyBindings {
    pub up: u32,
    pub down: u32,
    pub left: u32,
    pub right: u32,
}

/// The keys that are held down during one tick.
#[derive(Debug)]
pub struct InputSnapshot {
    pressed: Vec<u32>,
}

impl View for InputSnapshot {
    type V = Set<u32>;

    /// The set of keys held down.
    closed spec fn view(&self) -> Set<u32> {
        Set::new(|key: u32| self.pressed@.contains(key))
    }
}

impl InputSnapshot {
    /// A tick on which no key is held.
    pub fn new() -> (input: InputSnapshot)
        ensures
            input@ == Set::<u32>::empty(),
    {
        let input = InputSnapshot { pressed: Vec::new() };
        assert(input@ =~= Set::<u32>::empty());
        input
    }

    /// Marks a key as held. Holding a key that is held already changes
    /// nothing.
    pub fn press(&mut self, key: u32)
        ensures
            final(self)@ == old(self)@.insert(key),
    {
        let ghost before = self.pressed@;
        self.pressed.push(key);
        proof {
            let after = self.pressed@;
            assert(after[before.len() as int] == key);
            assert forall|k: u32| #[trigger] after.contains(k) <==> (before.contains(k) || k == key) by {
                if before.contains(k) {
                    let i = choose|i: int| 0 <= i < before.len() && before[i] == k;
                    assert(after[i] == k);
                }
            }
            assert(self@ =~= old(self)@.insert(key));
        }
    }

    /// Whether a key is held.
    pub fn is_pressed(&self, key: u32) -> (held: bool)
        ensures
            held == self@.contains(key),
    {
        let mut i: usize = 0;
        while i < self.pressed.len()
            invariant
                i <= self.pressed.len(),
                forall|j: int| 0 <= j < i ==> self.pressed@[j] != key,
            decreases self.pressed.len() - i,
        {
            if self.pressed[i] == key {
                return true;
            }
            i = i + 1;
        }
        false
    }

    /// The drift direction of this tick, read off the fixed physical keys.
    pub fn drift_direction(&self) -> (direction: Direction)
        ensures
            direction == wasd_direction(
                self@.contains(KEY_W),
                self@.contains(KEY_A),
                self@.contains(KEY_S),
                self@.contains(KEY_D),
            ),
    {
        crate::translation::direction_from_keys(
            self.is_pressed(KEY_W),
            self.is_pressed(KEY_A),
            self.is_pressed(KEY_S),
            self.is_pressed(KEY_D),
        )
    }
}

impl KeyBindings {
    /// The logical directions that are held when the keys in `pressed` are.
    pub open spec fn held_in(self, pressed: Set<u32>) -> HeldDirections {
        HeldDirections {
            up: pressed.contains(self.up),
            down: pressed.contains(self.down),
            left: pressed.contains(self.left),
            right: pressed.contains(self.right),
        }
    }

    /// Looks up each bound key among the keys held this tick.
    pub fn held(&self, input: &InputSnapshot) -> (held: HeldDirections)
        ensures
            held == self.held_in(input@),
    {
        HeldDirections {
            up: input.is_pressed(self.up),
            down: input.is_pressed(self.down),
            left: input.is_pressed(self.left),
            right: input.is_pressed(self.right),
        }
    }
}

} // verus!
