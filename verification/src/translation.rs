//! The drift of characters and cameras, read off four fixed physical keys.

use vstd::prelude::*;

verus! {

/// World units covered per second along an axis whose key is held.
pub const DRIFT_SPEED: u32 = 1000;

/// A step along the two world axes, each part -1, 0 or 1. A diagonal is not
/// shortened to unit length.
#[derive(Clone, Copy, Debug, PartialEq, Eq, Structural)]
pub struct Direction {
    pub x: i8,
    pub y: i8,
}

/// One axis: the key that adds counts one, the key that subtracts counts
/// minus one, and held together they cancel.
pub open spec fn axis(subtracts: bool, adds: bool) -> int {
    (if adds { 1int } else { 0int }) - (if subtracts { 1int } else { 0int })
}

/// The direction that the physical keys W, A, S and D stand for: A and D pull
/// along X, S and W along Y.
pub open spec fn wasd_direction(w: bool, a: bool, s: bool, d: bool) -> Direction {
    Direction { x: axis(a, d) as i8, y: axis(s, w) as i8 }
}

/// Computes the drift direction from the physical keys held this tick. The
/// logical bindings of a character play no part in it.
pub fn direction_from_keys(w: bool, a: bool, s: bool, d: bool) -> (direction: Direction)
    ensures
        direction == wasd_direction(w, a, s, d),
        direction.x == axis(a, d),
        direction.y == axis(s, w),
{
    let mut x: i8 = 0;
    let mut y: i8 = 0;
    if a {
        x = x - 1;
    }
    if d {
        x = x + 1;
    }
    if w {
        y = y + 1;
    }
    if s {
        y = y - 1;
    }
    Direction { x, y }
}

/// Opposite keys cancel, each axis stays within one step, and the two axes
/// do not influence one another.
pub proof fn lemma_direction_axes(w: bool, a: bool, s: bool, d: bool)
    ensures
        -1 <= wasd_direction(w, a, s, d).x <= 1,
        -1 <= wasd_direction(w, a, s, d).y <= 1,
        a == d ==> wasd_direction(w, a, s, d).x == 0,
        w == s ==> wasd_direction(w, a, s, d).y == 0,
        d && !a ==> wasd_direction(w, a, s, d).x == 1,
        a && !d ==> wasd_direction(w, a, s, d).x == -1,
        w && !s ==> wasd_direction(w, a, s, d).y == 1,
        s && !w ==> wasd_direction(w, a, s, d).y == -1,
        forall|w2: bool, s2: bool| wasd_direction(w2, a, s2, d).x == wasd_direction(w, a, s, d).x,
        forall|a2: bool, d2: bool| wasd_direction(w, a2, s, d2).y == wasd_direction(w, a, s, d).y,
{
}

} // verus!
