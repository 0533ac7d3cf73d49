//! A streaming correlation engine: it decodes change-data-capture records for
//! assets, work permits, permit-asset associations and sensor datapoints, keeps
//! the known assets and permits in memory, links them as association events
//! arrive, and attributes each datapoint to the permits linked to its asset.
use vstd::prelude::*;

pub mod decode;
pub mod dispatch;
pub mod json;
pub mod model;
pub mod store;
pub mod time;

verus! {
} // verus!
