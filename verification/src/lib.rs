//! Gameplay rules of a small top-down 2D game: which way a character faces
//! given the held keys, which sprite frame shows that, and which way the
//! character and the camera drift. Everything here is plain data in, plain
//! data out; the host's frame loop feeds it input and time once per tick.

pub mod animation;
pub mod clock;
pub mod input;
pub mod movement;
pub mod player;
pub mod translation;
