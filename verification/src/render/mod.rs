//! Views of the world.

pub mod ascii;
