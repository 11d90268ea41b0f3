//! The verified core of batch persistence: authorize every event of a batch
//! against the registry snapshot and flatten the batch to storage rows, all
//! or nothing. The surrounding I/O — streaming the rows to the store —
//! consumes the prepared rows only when every check has passed, so a
//! rejected batch writes zero rows.
use vstd::prelude::*;

use crate::clickhouse_event_record::{record_matches_event, ClickhouseEventRecord};
use crate::ingest_event::IngestEvent;
use crate::ingest_event_repository::{IngestRepositoryError, SourceRegistry};

verus! {

/// When a batch is rejected outright: it is empty, or some event in it comes
/// from a channel outside the registry snapshot.
pub open spec fn spec_batch_rejected(registry: SourceRegistry, events: Seq<IngestEvent>) -> bool {
    events.len() == 0 || exists|i: int|
        0 <= i < events.len() && !registry.spec_authorized(events[i].spec_source_pair())
}

/// Authorize and flatten a batch, all or nothing: the result is either one
/// storage row per event, in batch order, or `InvalidRequest` with no rows
/// at all. No other error can arise here; store failures belong to the
/// surrounding I/O.
pub fn prepare_event_records(registry: &SourceRegistry, events: &Vec<IngestEvent>) -> (r: Result<
    Vec<ClickhouseEventRecord>,
    IngestRepositoryError,
>)
    ensures
        r is Err <==> spec_batch_rejected(*registry, events@),
        r matches Err(e) ==> e == IngestRepositoryError::InvalidRequest,
        r matches Ok(rows) ==> rows@.len() == events@.len() && (forall|i: int|
            0 <= i < events@.len() ==> record_matches_event(#[trigger] rows@[i], events@[i])),
{
    if events.len() == 0 {
        return Err(IngestRepositoryError::InvalidRequest);
    }
    let n = events.len();
    let mut rows: Vec<ClickhouseEventRecord> = Vec::new();
    let mut i: usize = 0;
    while i < n
        invariant
            0 <= i <= n,
            n == events@.len(),
            rows@.len() == i,
            forall|j: int| 0 <= j < i ==> registry.spec_authorized(events@[j].spec_source_pair()),
            forall|j: int| 0 <= j < i ==> record_matches_event(#[trigger] rows@[j], events@[j]),
        decreases n - i,
    {
        let event = &events[i];
        let source = event.source();
        if !registry.is_authorized(&source) {
            return Err(IngestRepositoryError::InvalidRequest);
        }
        rows.push(ClickhouseEventRecord::from_event(event));
        i = i + 1;
    }
    Ok(rows)
}

/// Law: an empty batch is rejected before anything else is looked at.
pub proof fn lemma_empty_batch_rejected(registry: SourceRegistry, events: Seq<IngestEvent>)
    requires
        events.len() == 0,
    ensures
        spec_batch_rejected(registry, events),
{
}

/// Law: one unauthorized event rejects the whole batch — no rows are
/// produced for any event of it, however many others were valid.
pub proof fn lemma_unauthorized_event_rejects_batch(
    registry: SourceRegistry,
    events: Seq<IngestEvent>,
    i: int,
)
    requires
        0 <= i < events.len(),
        !registry.spec_authorized(events[i].spec_source_pair()),
    ensures
        spec_batch_rejected(registry, events),
{
}

} // verus!
