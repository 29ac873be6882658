//! Combat: weapons, where they are mounted, and what damage does.

pub mod damage;
pub mod mount;
pub mod weapon;
