//! Routing fields.
//!
//! Two fields answer two questions. The traversal field says how hard it is to cross a
//! cell; the target field says what is worth attacking. Agents find their way by the
//! first and choose destinations by the second.

pub mod breach;
pub mod target;
pub mod target_values;
pub mod traversal;
