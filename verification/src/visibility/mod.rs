//! What the player can see: fog of war and sonar.

pub mod fog;
pub mod sonar;
