//! HTTP-facing summaries of completed actions, separated from the domain
//! summaries so the web tier never leaks domain internals.
use vstd::prelude::*;

use crate::ingest_action_summary::{IngestActionSummary, IngestEventSaveSummary};

verus! {

/// The web tier's view of a completed save.
#[derive(Debug, Clone, Copy, PartialEq, Eq, Structural)]
pub struct ClientEventSaveSummary {
    /// The number of events saved.
    pub event_count: usize,
}

/// The web tier's view of any completed action.
#[derive(Debug, Clone, Copy, PartialEq, Eq, Structural)]
pub enum ClientEventActionSummary {
    /// A batch of events was saved.
    Save(ClientEventSaveSummary),
}

impl From<IngestEventSaveSummary> for ClientEventSaveSummary {
    fn from(value: IngestEventSaveSummary) -> (r: Self) {
        ClientEventSaveSummary { event_count: value.event_count }
    }
}

impl vstd::std_specs::convert::FromSpecImpl<IngestEventSaveSummary> for ClientEventSaveSummary {
    open spec fn obeys_from_spec() -> bool {
        true
    }

    open spec fn from_spec(value: IngestEventSaveSummary) -> Self {
        ClientEventSaveSummary { event_count: value.event_count }
    }
}

impl From<IngestActionSummary> for ClientEventActionSummary {
    fn from(value: IngestActionSummary) -> (r: Self) {
        match value {
            IngestActionSummary::Save(s) => ClientEventActionSummary::Save(
                ClientEventSaveSummary { event_count: s.event_count },
            ),
        }
    }
}

impl vstd::std_specs::convert::FromSpecImpl<IngestActionSummary> for ClientEventActionSummary {
    open spec fn obeys_from_spec() -> bool {
        true
    }

    open spec fn from_spec(value: IngestActionSummary) -> Self {
        match value {
            IngestActionSummary::Save(s) => ClientEventActionSummary::Save(
                ClientEventSaveSummary { event_count: s.event_count },
            ),
        }
    }
}

impl ClientEventActionSummary {
    /// The HTTP status a completed action maps to: a created response, with
    /// no body sent back to the client.
    pub fn status(&self) -> (r: u16)
        ensures
            r == 201,
    {
        match self {
            ClientEventActionSummary::Save(_) => 201,
        }
    }
}

} // verus!
