//! The service layer over batch persistence: fail fast on empty batches,
//! delegate to the repository core, and wrap repository errors without
//! swallowing them.
use vstd::prelude::*;

use crate::clickhouse_event_record::{record_matches_event, ClickhouseEventRecord};
use crate::clickhouse_ingest_repository::{prepare_event_records, spec_batch_rejected};
use crate::ingest_event::IngestEvent;
use crate::ingest_event_repository::{IngestRepositoryError, SourceRegistry};

verus! {

/// Potential error cases for a service-level ingest action.
#[derive(Clone, Debug, PartialEq, Eq, Structural)]
pub enum IngestServiceError {
    /// The request did not match the rules, such as an empty batch or an
    /// unauthorized event.
    InvalidRequest,
    /// The underlying repository reported an error, preserved as the cause.
    Repository(IngestRepositoryError),
}

/// How repository errors surface at the service level: invalid requests stay
/// invalid requests; everything else is wrapped with its cause preserved.
pub open spec fn spec_map_repository_error(e: IngestRepositoryError) -> IngestServiceError {
    match e {
        IngestRepositoryError::InvalidRequest => IngestServiceError::InvalidRequest,
        IngestRepositoryError::Conversion => IngestServiceError::Repository(
            IngestRepositoryError::Conversion,
        ),
        IngestRepositoryError::Repository => IngestServiceError::Repository(
            IngestRepositoryError::Repository,
        ),
    }
}

/// Wrap a repository error for service callers.
pub fn map_repository_error(e: IngestRepositoryError) -> (r: IngestServiceError)
    ensures
        r == spec_map_repository_error(e),
{
    match e {
        IngestRepositoryError::InvalidRequest => IngestServiceError::InvalidRequest,
        IngestRepositoryError::Conversion => IngestServiceError::Repository(
            IngestRepositoryError::Conversion,
        ),
        IngestRepositoryError::Repository => IngestServiceError::Repository(
            IngestRepositoryError::Repository,
        ),
    }
}

/// The service's save path up to the store boundary: reject an empty batch
/// before anything else (deliberate defense in depth above the repository's
/// own check), then authorize and flatten the whole batch atomically. On
/// success the rows — one per event, in order — are handed to the store's
/// insert stream.
pub fn plan_save(registry: &SourceRegistry, events: &Vec<IngestEvent>) -> (r: Result<
    Vec<ClickhouseEventRecord>,
    IngestServiceError,
>)
    ensures
        events@.len() == 0 ==> r == Err::<Vec<ClickhouseEventRecord>, IngestServiceError>(
            IngestServiceError::InvalidRequest,
        ),
        r is Err <==> spec_batch_rejected(*registry, events@),
        r matches Err(e) ==> e == IngestServiceError::InvalidRequest,
        r matches Ok(rows) ==> rows@.len() == events@.len() && (forall|i: int|
            0 <= i < events@.len() ==> record_matches_event(#[trigger] rows@[i], events@[i])),
{
    if events.len() == 0 {
        return Err(IngestServiceError::InvalidRequest);
    }
    match prepare_event_records(registry, events) {
        Ok(rows) => Ok(rows),
        Err(e) => Err(map_repository_error(e)),
    }
}

} // verus!
