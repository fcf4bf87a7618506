//! Verified coordination and accountability logic for simulated robot fleets.
use vstd::prelude::*;

pub mod api;
pub mod audit;
pub mod cli;
pub mod coordinator;
pub mod crypto;
pub mod json;
pub mod key_establishment;
pub mod metrics;
pub mod model;
pub mod primitives;
pub mod runtime;
pub mod table;
pub mod text;

verus! {

} // verus!
