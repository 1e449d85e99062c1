//! Frame decisions of a small tile-map platformer: which animation the
//! player shows, which way it faces, how its velocity evolves under gravity,
//! running and jumping, and how far it travels in one frame.

pub mod input;
pub mod physics;
pub mod player;
pub mod world;
