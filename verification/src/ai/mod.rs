//! The colony: castes, scent, and the corridors its agents travel through.

pub mod caste;
pub mod ecology;
pub mod leader;
pub mod scent;
pub mod scout;
pub mod tunnel_queue;
