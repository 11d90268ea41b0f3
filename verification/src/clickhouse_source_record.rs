//! The record shape in which authorized (api key, site) pairs are read out
//! of the store's credential table at startup.
use vstd::prelude::*;

use crate::ingest_event::{ApiKey, IngestEventSource, Site};
use crate::text::{copy_str, trimmed};

verus! {

/// One row of the credential table: an api key and the site it is valid for.
#[derive(Debug, Clone, PartialEq, Eq, Hash)]
pub struct ClickhouseSourceRecord {
    api_key: String,
    site: String,
}

impl View for ClickhouseSourceRecord {
    type V = (Seq<char>, Seq<char>);

    closed spec fn view(&self) -> (Seq<char>, Seq<char>) {
        (self.api_key@, self.site@)
    }
}

impl ClickhouseSourceRecord {
    /// Build a source record from its two column values.
    pub fn new(api_key: &str, site: &str) -> (r: Self)
        ensures
            r@ == (api_key@, site@),
    {
        ClickhouseSourceRecord { api_key: copy_str(api_key), site: copy_str(site) }
    }

    /// The authorized ingestion channel this record describes, with both
    /// fields trimmed the way the domain newtypes trim them.
    pub fn to_event_source(&self) -> (r: IngestEventSource)
        ensures
            r@ == (trimmed(self@.0), trimmed(self@.1)),
    {
        IngestEventSource::new(ApiKey::new(self.api_key.as_str()), Site::new(self.site.as_str()))
    }
}

} // verus!
