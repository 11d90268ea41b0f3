//! Repository-level error taxonomy and the authorization registry: the
//! in-memory snapshot of permitted (api key, site) pairs that every event in
//! a batch is checked against before any row is produced.
use vstd::prelude::*;

use crate::ingest_event::IngestEventSource;
use crate::text::str_eq;

verus! {

/// Potential error cases for a repository action.
#[derive(Clone, Debug, PartialEq, Eq, Structural)]
pub enum IngestRepositoryError {
    /// The event could not be translated into the repository's record form.
    Conversion,
    /// The request was invalid: an empty batch, or an event from a channel
    /// that is not authorized.
    InvalidRequest,
    /// The underlying store reported an error.
    Repository,
}

/// The read-only snapshot of authorized ingestion channels, loaded once at
/// startup and shared across requests.
#[derive(Debug, Clone)]
pub struct SourceRegistry {
    sources: Vec<IngestEventSource>,
}

impl View for SourceRegistry {
    type V = Seq<(Seq<char>, Seq<char>)>;

    closed spec fn view(&self) -> Seq<(Seq<char>, Seq<char>)> {
        self.sources@.map_values(|s: IngestEventSource| s@)
    }
}

impl SourceRegistry {
    /// Whether the (api key, site) pair belongs to the snapshot.
    pub open spec fn spec_authorized(&self, pair: (Seq<char>, Seq<char>)) -> bool {
        exists|i: int| 0 <= i < self@.len() && self@[i] == pair
    }

    /// Build the snapshot from the channels loaded out of the store.
    pub fn new(sources: Vec<IngestEventSource>) -> (r: Self)
        ensures
            r@ == sources@.map_values(|s: IngestEventSource| s@),
    {
        SourceRegistry { sources }
    }

    /// The number of channels in the snapshot.
    pub fn len(&self) -> (r: usize)
        ensures
            r == self@.len(),
    {
        self.sources.len()
    }

    /// The channels of the snapshot, as loaded.
    pub fn sources(&self) -> (r: &Vec<IngestEventSource>)
        ensures
            r@.len() == self@.len(),
            forall|i: int| 0 <= i < r@.len() ==> (#[trigger] r@[i])@ == self@[i],
    {
        proof {
            assert(forall|i: int|
                0 <= i < self.sources@.len() ==> (#[trigger] self.sources@[i])@
                    == self.sources@.map_values(|s: IngestEventSource| s@)[i]);
        }
        &self.sources
    }

    /// Pure membership check of one channel against the snapshot.
    pub fn is_authorized(&self, source: &IngestEventSource) -> (r: bool)
        ensures
            r == self.spec_authorized(source@),
    {
        let n = self.sources.len();
        let mut i: usize = 0;
        while i < n
            invariant
                0 <= i <= n,
                n == self@.len(),
                self@ == self.sources@.map_values(|s: IngestEventSource| s@),
                forall|j: int| 0 <= j < i ==> self@[j] != source@,
            decreases n - i,
        {
            let candidate = &self.sources[i];
            let key_matches = str_eq(
                candidate.api_key().value().as_str(),
                source.api_key().value().as_str(),
            );
            let site_matches = str_eq(
                candidate.site().value().as_str(),
                source.site().value().as_str(),
            );
            if key_matches && site_matches {
                proof {
                    assert(candidate@ =~= source@);
                    assert(self@[i as int] == self.sources@.map_values(
                        |s: IngestEventSource| s@,
                    )[i as int]);
                }
                return true;
            }
            i = i + 1;
        }
        false
    }
}

} // verus!
