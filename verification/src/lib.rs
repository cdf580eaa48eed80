//! Decision logic of a Screeps colony bot: creep roles and their state
//! machine, per-room bookkeeping of creeps and of the structures they are
//! bound to, target selection and spawning rules.
//!
//! Everything here works on plain values. Reading the game world, writing
//! creep and room memory, and the JSON encoding of that memory happen in the
//! companion application crate, which hands the results to these functions.
pub mod global;
pub mod manager;
pub mod model;
pub mod role;
pub mod source;
pub mod spawn;
pub mod structure;
pub mod utils;

