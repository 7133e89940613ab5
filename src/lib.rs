//! Call-hierarchy analysis of a contract module: classification of function
//! records and assembly of the rooted hierarchy tree handed to a diagram dialect.

use vstd::prelude::*;

pub mod classifier;
pub mod hierarchy;
pub mod model;
pub mod pipeline;
pub mod sample_contract;

verus! {

} // verus!
