//! Incremental ingestion of the propagated solar-wind feed into a versioned
//! table: decoding feed rows, resolving the watermark, keeping what is newer,
//! laying it out in columns, and the write, bounded commit retry and
//! maintenance steps of a run.

use vstd::prelude::*;

pub mod delta;
pub mod pipeline;
pub mod swpc;
pub mod time;

verus! {

} // verus!
