//! Discrete core of a point-reactor gas simulation: the closed set of gas
//! species with its constant table, species-indexed storage, the ordered
//! reaction pipeline and the drivers that repeat it.
//!
//! The quantities that flow through a simulation (amounts, temperatures,
//! volumes) are the caller's: every function here is generic in the state it
//! moves around, and says in its contract how the result is related to what
//! the caller's own operations return.

pub mod batch;
pub mod gas;
pub mod gas_map;
pub mod layout;
pub mod reactions;
