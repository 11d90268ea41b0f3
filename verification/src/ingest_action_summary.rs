//! Summaries of successfully completed ingest actions.
use vstd::prelude::*;

verus! {

/// Information about a successful save action.
#[derive(Debug, Clone, Copy, PartialEq, Eq, Structural)]
pub struct IngestEventSaveSummary {
    /// The number of events saved by the call.
    pub event_count: usize,
}

impl IngestEventSaveSummary {
    /// Record that `event_count` events were saved.
    pub fn new(event_count: usize) -> (r: Self)
        ensures
            r.event_count == event_count,
    {
        IngestEventSaveSummary { event_count }
    }
}

/// The successful outcome of any action this domain carries out.
#[derive(Debug, Clone, Copy, PartialEq, Eq, Structural)]
pub enum IngestActionSummary {
    /// A batch of events was saved.
    Save(IngestEventSaveSummary),
}

} // verus!
