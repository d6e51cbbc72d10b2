//! A resource-consumption governor: given a two-dimensional execution budget
//! (compute time and witness size), it deliberately spends a configured
//! fraction of the budget that an idle slot has left, and never more than the
//! budget allows in either dimension.

pub mod clock;
pub mod cost;
pub mod event;
pub mod fraction;
pub mod hash;
pub mod laws;
pub mod meter;
pub mod pallet;
pub mod trash;
pub mod weight;
pub mod weights;
