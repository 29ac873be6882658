//! Routing fields, breach coordination and corridor queues for a swarm simulation
//! on a destructible three-dimensional grid.
//!
//! Many cheap agents move through the grid toward what the player holds. Five
//! structures tell them how, and each is specified here by a mathematical model and
//! proved to follow it:
//!
//! - the traversal field (`flow::traversal`): what each cell costs to cross, which is
//!   the durability of what stands in it;
//! - the target field (`flow::target`): what each cell is worth attacking;
//! - the breach registry (`flow::breach`): which holes in the defences exist and who
//!   has claimed them;
//! - the scent trails (`ai::scent`): decaying marks that scouts leave behind;
//! - the corridors (`ai::tunnel_queue`): agents that travel off screen as queue
//!   entries, and what happens to them when a corridor breaks.
//!
//! Around them stand the terrain (`world`), the colony (`ai`), combat, the player's
//! actions and what the player can see.
//!
//! # Numbers
//!
//! Everything is counted in whole numbers. Times are in milliseconds. Scent and
//! progress along a corridor are in millionths of a unit; rates of movement, damage,
//! ranges and health are in thousandths. Where a sum would leave its type it stops at
//! the largest value of the type, which the contracts say where it can happen.
//!
//! # Handles
//!
//! Agents and nests live outside this library and are referred to by `handle::Handle`.
//! A handle is stored and compared, never followed.
//!
//! # What is taken on trust
//!
//! Hash maps are `hashbrown` maps and random numbers come from `rand`. The files
//! `cell_table`, `step_table`, `scent_table`, `count_table` and `chance` hold the calls
//! into those crates, each with a statement of what the call does that is believed and
//! not proved. Everything else is proved from those statements.

pub mod ai;
pub mod cell_table;
pub mod chance;
pub mod combat;
pub mod count_table;
pub mod flow;
pub mod handle;
pub mod player;
pub mod position;
pub mod render;
pub mod scent_table;
pub mod step_table;
pub mod visibility;
pub mod world;
