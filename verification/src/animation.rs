//! The walk cycle: from a movement state and the frame on show to the next
//! frame of a sprite sheet of four rows by nine columns.

use crate::clock::AnimationClock;
use crate::movement::Character;
use crate::movement::MovementState;
use vstd::prelude::*;

verus! {

/// Frames in one row of the sheet, which is one walk cycle.
pub const FRAMES_PER_GROUP: u32 = 9;

/// Rows on the sheet, one for each facing.
pub const GROUP_COUNT: u32 = 4;

/// Frames on the whole sheet.
pub const FRAME_COUNT: u32 = 36;

/// One row of the sprite sheet: the walk cycle of one facing. The rows lie
/// on the sheet in the order up, left, down, right.
#[derive(Clone, Copy, Debug, PartialEq, Eq, Structural)]
pub enum AnimationGroup {
    Up,
    Left,
    Down,
    Right,
}

impl AnimationGroup {
    /// Place of the row on the sheet, counted from the top.
    pub open spec fn row(self) -> u32 {
        match self {
            AnimationGroup::Up => 0,
            AnimationGroup::Left => 1,
            AnimationGroup::Down => 2,
            AnimationGroup::Right => 3,
        }
    }

    /// First frame of the row, which is also its resting pose.
    pub open spec fn base(self) -> u32 {
        match self {
            AnimationGroup::Up => 0,
            AnimationGroup::Left => 9,
            AnimationGroup::Down => 18,
            AnimationGroup::Right => 27,
        }
    }

    /// Last frame of the row.
    pub open spec fn last(self) -> u32 {
        match self {
            AnimationGroup::Up => 8,
            AnimationGroup::Left => 17,
            AnimationGroup::Down => 26,
            AnimationGroup::Right => 35,
        }
    }

    /// The frame lies in this row.
    pub open spec fn contains(self, index: u32) -> bool {
        self.base() <= index <= self.last()
    }

    /// The row that animates a movement state, if it moves at all. A
    /// diagonal is shown by the row of its horizontal part.
    pub open spec fn of_state(state: MovementState) -> Option<AnimationGroup> {
        match state {
            MovementState::Right | MovementState::DownRight | MovementState::UpRight => Some(
                AnimationGroup::Right,
            ),
            MovementState::Down => Some(AnimationGroup::Down),
            MovementState::Left | MovementState::DownLeft | MovementState::UpLeft => Some(
                AnimationGroup::Left,
            ),
            MovementState::Up => Some(AnimationGroup::Up),
            MovementState::Idle => None,
        }
    }

    /// The row that a frame lies in, if it is on the sheet.
    pub open spec fn of_frame(index: u32) -> Option<AnimationGroup> {
        if index <= 8 {
            Some(AnimationGroup::Up)
        } else if index <= 17 {
            Some(AnimationGroup::Left)
        } else if index <= 26 {
            Some(AnimationGroup::Down)
        } else if index <= 35 {
            Some(AnimationGroup::Right)
        } else {
            None
        }
    }

    /// First frame of the row.
    pub fn base_frame(self) -> (index: u32)
        ensures
            index == self.base(),
    {
        match self {
            AnimationGroup::Up => 0,
            AnimationGroup::Left => 9,
            AnimationGroup::Down => 18,
            AnimationGroup::Right => 27,
        }
    }

    /// Last frame of the row.
    pub fn last_frame(self) -> (index: u32)
        ensures
            index == self.last(),
            index == self.base() + FRAMES_PER_GROUP - 1,
    {
        match self {
            AnimationGroup::Up => 8,
            AnimationGroup::Left => 17,
            AnimationGroup::Down => 26,
            AnimationGroup::Right => 35,
        }
    }

    /// The row that animates a movement state; none for a character at rest.
    pub fn for_state(state: MovementState) -> (group: Option<AnimationGroup>)
        ensures
            group == AnimationGroup::of_state(state),
    {
        match state {
            MovementState::Right | MovementState::DownRight | MovementState::UpRight => Some(
                AnimationGroup::Right,
            ),
            MovementState::Down => Some(AnimationGroup::Down),
            MovementState::Left | MovementState::DownLeft | MovementState::UpLeft => Some(
                AnimationGroup::Left,
            ),
            MovementState::Up => Some(AnimationGroup::Up),
            MovementState::Idle => None,
        }
    }

    /// The row that a frame lies in; none for a frame beyond the sheet.
    pub fn for_frame(index: u32) -> (group: Option<AnimationGroup>)
        ensures
            group == AnimationGroup::of_frame(index),
            group matches Some(g) ==> g.contains(index),
            group is None <==> index >= FRAME_COUNT,
    {
        if index <= 8 {
            Some(AnimationGroup::Up)
        } else if index <= 17 {
            Some(AnimationGroup::Left)
        } else if index <= 26 {
            Some(AnimationGroup::Down)
        } else if index <= 35 {
            Some(AnimationGroup::Right)
        } else {
            None
        }
    }
}

/// The frame that follows `index` when the animation clock fires.
///
/// A moving character steps through the row of its state and wraps from the
/// row's last frame to its first; a frame outside that row jumps to the
/// row's first frame. A character at rest falls back to the first frame of
/// the row it is in, and a frame beyond the sheet stays as it is.
pub open spec fn next_frame(state: MovementState, index: u32) -> u32 {
    match AnimationGroup::of_state(state) {
        Some(group) => if group.base() <= index < group.last() {
            (index + 1) as u32
        } else {
            group.base()
        },
        None => match AnimationGroup::of_frame(index) {
            Some(group) => group.base(),
            None => index,
        },
    }
}

/// The frame on show after one tick: the next frame if the clock fired,
/// else the same frame.
pub open spec fn frame_after_tick(fired: bool, state: MovementState, index: u32) -> u32 {
    if fired {
        next_frame(state, index)
    } else {
        index
    }
}

/// Computes the frame that follows `index` on a firing of the clock.
pub fn advance_frame(state: MovementState, index: u32) -> (next: u32)
    ensures
        next == next_frame(state, index),
{
    match AnimationGroup::for_state(state) {
        Some(group) => {
            if group.base_frame() <= index && index < group.last_frame() {
                index + 1
            } else {
                group.base_frame()
            }
        },
        None => match AnimationGroup::for_frame(index) {
            Some(group) => group.base_frame(),
            None => index,
        },
    }
}

/// One tick of animation for one character. If the clock has finished it is
/// rearmed and the frame moves on by the rule of the character's state;
/// if not, neither the clock nor the frame is touched.
pub fn animate_character(clock: &mut AnimationClock, character: &Character, frame: &mut u32)
    ensures
        old(clock).wf() ==> final(clock).wf(),
        !old(clock).is_finished() ==> *final(clock) == *old(clock),
        !final(clock).is_finished(),
        final(clock).elapsed() == (if old(clock).is_finished() {
            0
        } else {
            old(clock).elapsed()
        }),
        *final(frame) == frame_after_tick(
            old(clock).is_finished(),
            character.move_state,
            *old(frame),
        ),
{
    if clock.finished() {
        clock.reset();
        *frame = advance_frame(character.move_state, *frame);
    }
}

/// The four rows tile the sheet: each row is nine frames long and starts
/// where the one above it ends, every frame on the sheet lies in exactly one
/// row, and no frame beyond the sheet lies in any.
pub proof fn lemma_rows_tile_the_sheet(group: AnimationGroup, index: u32)
    ensures
        FRAME_COUNT == GROUP_COUNT * FRAMES_PER_GROUP,
        group.row() < GROUP_COUNT,
        group.base() == group.row() * FRAMES_PER_GROUP,
        group.last() == group.base() + FRAMES_PER_GROUP - 1,
        group.contains(index) <==> AnimationGroup::of_frame(index) == Some(group),
        index < FRAME_COUNT <==> AnimationGroup::of_frame(index) is Some,
{
}

/// While a character moves, a firing of the clock steps the frame by one
/// inside the row of its state, wraps from the row's last frame to its
/// first, and brings any other frame to the row's first. The result always
/// lies in that row.
pub proof fn lemma_walk_cycle(state: MovementState, index: u32)
    requires
        state != MovementState::Idle,
    ensures
        AnimationGroup::of_state(state) matches Some(group) && {
            &&& group.contains(next_frame(state, index))
            &&& group.base() <= index < group.last() ==> next_frame(state, index) == index + 1
            &&& index == group.last() ==> next_frame(state, index) == group.base()
            &&& !group.contains(index) ==> next_frame(state, index) == group.base()
        },
{
}

/// States that share a row animate alike: the next frame depends on the
/// state only through its row.
pub proof fn lemma_same_row_same_step(first: MovementState, second: MovementState, index: u32)
    requires
        AnimationGroup::of_state(first) == AnimationGroup::of_state(second),
    ensures
        next_frame(first, index) == next_frame(second, index),
{
}

/// At rest, a firing of the clock brings a frame on the sheet to the first
/// frame of its own row and leaves a frame beyond the sheet alone. Doing so
/// twice is the same as doing so once.
pub proof fn lemma_idle_snap(index: u32)
    ensures
        AnimationGroup::of_frame(index) matches Some(group) ==> {
            &&& next_frame(MovementState::Idle, index) == group.base()
            &&& group.contains(index)
            &&& AnimationGroup::of_frame(group.base()) == Some(group)
        },
        index >= FRAME_COUNT ==> next_frame(MovementState::Idle, index) == index,
        next_frame(MovementState::Idle, next_frame(MovementState::Idle, index)) == next_frame(
            MovementState::Idle,
            index,
        ),
{
}

/// A frame on the sheet stays on the sheet, whatever the state and whether
/// or not the clock fired; a moving character's frame is put on the sheet
/// by the first firing even if it was beyond it.
pub proof fn lemma_frame_stays_on_sheet(fired: bool, state: MovementState, index: u32)
    ensures
        index < FRAME_COUNT ==> frame_after_tick(fired, state, index) < FRAME_COUNT,
        state != MovementState::Idle ==> next_frame(state, index) < FRAME_COUNT,
        !fired ==> frame_after_tick(fired, state, index) == index,
{
}

/// The frames that follow `index` after `fires` firings of the clock under
/// one unchanging state.
pub open spec fn frame_after_fires(state: MovementState, index: u32, fires: nat) -> u32
    decreases fires,
{
    if fires == 0 {
        index
    } else {
        next_frame(state, frame_after_fires(state, index, (fires - 1) as nat))
    }
}

/// A walk cycle has nine frames: from a frame in the row of a moving state,
/// nine firings of the clock lead back to the same frame.
pub proof fn lemma_walk_cycle_closes(state: MovementState, index: u32)
    requires
        AnimationGroup::of_state(state) matches Some(group) && group.contains(index),
    ensures
        frame_after_fires(state, index, FRAMES_PER_GROUP as nat) == index,
{
    reveal_with_fuel(frame_after_fires, 10);
}

} // verus!
