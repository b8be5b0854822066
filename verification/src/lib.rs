//! A token-vesting library: deterministic schedule generation with zero
//! rounding drift, a fixed-layout binary codec for vesting state, a
//! derived-address authority model, and the instruction-processing state
//! machine that ties them together.

use vstd::prelude::*;

pub mod associated;
pub mod authority;
pub mod calendar;
pub mod error;
pub mod instruction;
pub mod keys;
pub mod metadata;
pub mod processor;
pub mod schedule;
pub mod state;
pub mod token;

verus! {

} // verus!
