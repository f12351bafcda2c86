//! The rules of a small arcade game: a segmented creature moves over a
//! rectangular playfield, eats collectibles to grow and score, and dies when it
//! runs into the edge of the field or into its own body.
//!
//! Everything here works on whole units. A host program polls the keys, asks
//! the display for its size, calls [`session::Session::tick`] once per frame and
//! draws what the session then holds.

pub mod direction;
pub mod geometry;
pub mod creature;
pub mod collectible;
pub mod rules;
pub mod session;
pub mod chance;
