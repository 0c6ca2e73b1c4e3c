//! A player-controlled character and its update, once per tick.

use crate::animation::animate_character;
use crate::animation::frame_after_tick;
use crate::clock::AnimationClock;
use crate::input::InputSnapshot;
use crate::input::KeyBindings;
use crate::movement::Character;
use crate::movement::HeldDirections;
use crate::movement::MovementState;
use vstd::prelude::*;

verus! {

/// Everything that the rules keep for one player: the bindings, the
/// character steered with them, the clock of its walk cycle and the sprite
/// frame on show.
#[derive(Clone, Copy, Debug)]
pub struct PlayerCharacter {
    pub binds: KeyBindings,
    pub character: Character,
    pub clock: AnimationClock,
    pub frame: u32,
}

impl PlayerCharacter {
    /// The clock is in order.
    pub open spec fn wf(self) -> bool {
        self.clock.wf()
    }

    /// A player at rest on the first frame of the sheet, with a fresh clock.
    pub fn new(binds: KeyBindings, speed: u32) -> (player: PlayerCharacter)
        ensures
            player.wf(),
            player.binds == binds,
            player.character == (Character { move_state: MovementState::Idle, speed }),
            player.clock.elapsed() == 0,
            !player.clock.is_finished(),
            player.frame == 0,
    {
        PlayerCharacter {
            binds,
            character: Character::new(speed),
            clock: AnimationClock::new(),
            frame: 0,
        }
    }

    /// One tick. The state is resolved afresh from the keys held; then
    /// `delta_us` microseconds pass on the clock; and if that reaches the
    /// period, the clock starts over and the frame moves on by the rule of
    /// the new state. A tick that does not reach the period leaves the frame
    /// alone and only adds to the clock.
    pub fn update(&mut self, input: &InputSnapshot, delta_us: u64)
        requires
            old(self).wf(),
        ensures
            final(self).wf(),
            final(self).binds == old(self).binds,
            final(self).character == old(self).character.with_input(
                old(self).binds.held_in(input@),
            ),
            final(self).frame == frame_after_tick(
                old(self).clock.fires_after(delta_us),
                final(self).character.move_state,
                old(self).frame,
            ),
            !final(self).clock.is_finished(),
            final(self).clock.elapsed() == (if old(self).clock.fires_after(delta_us) {
                0
            } else {
                old(self).clock.elapsed() + delta_us
            }),
    {
        let held: HeldDirections = self.binds.held(input);
        self.character.apply_input(held);
        self.clock.tick(delta_us);
        animate_character(&mut self.clock, &self.character, &mut self.frame);
    }
}

/// Resolving unchanged input once more changes neither the state nor the
/// frame: the frame after a tick depends on the input only through the
/// resolved state, and without a firing of the clock it does not move.
pub proof fn lemma_unchanged_input_adds_no_frame(
    character: Character,
    held: HeldDirections,
    fired: bool,
    index: u32,
)
    ensures
        character.with_input(held).with_input(held) == character.with_input(held),
        frame_after_tick(fired, character.with_input(held).with_input(held).move_state, index)
            == frame_after_tick(fired, character.with_input(held).move_state, index),
        frame_after_tick(false, character.with_input(held).move_state, index) == index,
{
}

} // verus!
