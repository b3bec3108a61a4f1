use vstd::prelude::*;

verus! {

/// Marker for the statistics API's OpenAPI document; the document itself
/// is generated beside the route layer.
#[derive(Debug, Clone, Copy, PartialEq, Eq, Structural)]
pub struct StatsApi;

} // verus!
