//! From held directions to one of nine movement states.

use vstd::prelude::*;

verus! {

/// Facing and motion intent of a character for one tick.
#[derive(Clone, Copy, Debug, PartialEq, Eq, Structural)]
pub enum MovementState {
    Up,
    Down,
    Right,
    Left,
    UpLeft,
    UpRight,
    DownLeft,
    DownRight,
    Idle,
}

/// Which of the four logical directions are held during one tick.
#[derive(Clone, Copy, Debug, PartialEq, Eq, Structural)]
pub struct HeldDirections {
    pub up: bool,
    pub down: bool,
    pub left: bool,
    pub right: bool,
}

impl HeldDirections {
    /// No direction is held.
    pub open spec fn is_idle(self) -> bool {
        !self.up && !self.down && !self.left && !self.right
    }
}

impl MovementState {
    /// The state that a set of held directions stands for. The first line
    /// that matches wins: a diagonal beats a cardinal, and among the
    /// diagonals the left ones beat the right ones, up before down.
    pub open spec fn resolved(held: HeldDirections) -> MovementState {
        if held.up && held.left {
            MovementState::UpLeft
        } else if held.down && held.left {
            MovementState::DownLeft
        } else if held.up && held.right {
            MovementState::UpRight
        } else if held.down && held.right {
            MovementState::DownRight
        } else if held.up {
            MovementState::Up
        } else if held.down {
            MovementState::Down
        } else if held.left {
            MovementState::Left
        } else if held.right {
            MovementState::Right
        } else {
            MovementState::Idle
        }
    }

    /// The state has an upward part.
    pub open spec fn goes_up(self) -> bool {
        self == MovementState::Up || self == MovementState::UpLeft || self == MovementState::UpRight
    }

    /// The state has a downward part.
    pub open spec fn goes_down(self) -> bool {
        self == MovementState::Down || self == MovementState::DownLeft
            || self == MovementState::DownRight
    }

    /// The state has a leftward part.
    pub open spec fn goes_left(self) -> bool {
        self == MovementState::Left || self == MovementState::UpLeft
            || self == MovementState::DownLeft
    }

    /// The state has a rightward part.
    pub open spec fn goes_right(self) -> bool {
        self == MovementState::Right || self == MovementState::UpRight
            || self == MovementState::DownRight
    }

    /// The state joins a vertical and a horizontal part.
    pub open spec fn is_diagonal(self) -> bool {
        (self.goes_up() || self.goes_down()) && (self.goes_left() || self.goes_right())
    }

    /// Resolves the held directions of one tick to a movement state.
    pub fn resolve(held: HeldDirections) -> (state: MovementState)
        ensures
            state == MovementState::resolved(held),
    {
        if held.up && held.left {
            MovementState::UpLeft
        } else if held.down && held.left {
            MovementState::DownLeft
        } else if held.up && held.right {
            MovementState::UpRight
        } else if held.down && held.right {
            MovementState::DownRight
        } else if held.up {
            MovementState::Up
        } else if held.down {
            MovementState::Down
        } else if held.left {
            MovementState::Left
        } else if held.right {
            MovementState::Right
        } else {
            MovementState::Idle
        }
    }
}

/// A character that can be steered: its current movement state and its
/// speed in world units per second.
#[derive(Clone, Copy, Debug, PartialEq, Eq, Structural)]
pub struct Character {
    pub move_state: MovementState,
    pub speed: u32,
}

impl Character {
    /// The character after one tick of input: the state is resolved afresh,
    /// nothing else changes.
    pub open spec fn with_input(self, held: HeldDirections) -> Character {
        Character { move_state: MovementState::resolved(held), speed: self.speed }
    }

    /// A character at rest.
    pub fn new(speed: u32) -> (character: Character)
        ensures
            character == (Character { move_state: MovementState::Idle, speed }),
    {
        Character { move_state: MovementState::Idle, speed }
    }

    /// Overwrites the stored state with the one that the held directions
    /// resolve to, whether or not it differs from the stored one.
    pub fn apply_input(&mut self, held: HeldDirections)
        ensures
            *final(self) == old(self).with_input(held),
    {
        self.move_state = MovementState::resolve(held);
    }
}

/// The cascade settles each axis by itself: up wins over down and left wins
/// over right. So a resolved state names only directions that are held, it
/// rests exactly when nothing is held, and it is a diagonal exactly when a
/// vertical and a horizontal key are held together.
pub proof fn lemma_resolved_follows_held(held: HeldDirections)
    ensures
        MovementState::resolved(held).goes_up() <==> held.up,
        MovementState::resolved(held).goes_down() <==> held.down && !held.up,
        MovementState::resolved(held).goes_left() <==> held.left,
        MovementState::resolved(held).goes_right() <==> held.right && !held.left,
        MovementState::resolved(held) == MovementState::Idle <==> held.is_idle(),
        MovementState::resolved(held).is_diagonal() <==> (held.up || held.down) && (held.left
            || held.right),
{
}

/// A state is known by its parts: two states with the same vertical and
/// horizontal parts are the same state.
pub proof fn lemma_state_known_by_parts(first: MovementState, second: MovementState)
    requires
        first.goes_up() == second.goes_up(),
        first.goes_down() == second.goes_down(),
        first.goes_left() == second.goes_left(),
        first.goes_right() == second.goes_right(),
    ensures
        first == second,
{
}

} // verus!
