//! Stroke join bookkeeping: a three-point sliding window of endpoints, the
//! optional history of endpoint derivatives that travels with it, and the
//! combinatorial decisions that turn a prepared join into mesh topology.
use vstd::prelude::*;

pub mod differentials;
pub mod history;
pub mod history_laws;
pub mod join;
pub mod join_laws;
pub mod join_mesh;
pub mod join_plan;
pub mod join_prepare;
pub mod point_buffer;
pub mod shape_laws;

verus! {

} // verus!
