//! Flattened storage representation of ingest events: every variant becomes
//! one row of the common event table, with the variant-specific fields folded
//! into a generic attribute list under well-known keys.
use vstd::prelude::*;

use crate::event_id::{spec_hyphenated, spec_try_uuid_datetime, EventId, EventTimestamp};
use crate::ingest_event::{spec_validate_core, ApiKey, IngestEvent, Site, VisitorEvent};
use crate::text::{copy_str, copy_string};

verus! {

/// The kind of an analytics event as stored: each variant maps to a stable
/// small-integer code that is an append-only contract with the storage
/// schema's `event_type` column and the views built on it.
#[derive(Debug, Clone, Copy, PartialEq, Eq, Structural, Hash)]
pub enum ClickhouseEventRecordType {
    /// Stored with code 1.
    Visitor,
    /// Stored with code 2.
    Session,
    /// Stored with code 3.
    Section,
    /// Stored with code 4.
    Click,
}

/// The storage-facing event kind under the name the wire model uses.
pub type EventRecordType = ClickhouseEventRecordType;

impl ClickhouseEventRecordType {
    /// The stable storage code of each kind.
    pub open spec fn spec_code(self) -> u8 {
        match self {
            ClickhouseEventRecordType::Visitor => 1,
            ClickhouseEventRecordType::Session => 2,
            ClickhouseEventRecordType::Section => 3,
            ClickhouseEventRecordType::Click => 4,
        }
    }

    /// The integer code written to storage: Visitor is 1, Session 2,
    /// Section 3 and Click 4, and these values never shift.
    pub fn code(&self) -> (r: u8)
        ensures
            r == self.spec_code(),
    {
        match self {
            ClickhouseEventRecordType::Visitor => 1,
            ClickhouseEventRecordType::Session => 2,
            ClickhouseEventRecordType::Section => 3,
            ClickhouseEventRecordType::Click => 4,
        }
    }

    /// The storage kind corresponding to each event variant.
    pub open spec fn spec_of_event(ev: IngestEvent) -> Self {
        match ev {
            IngestEvent::Visitor(_) => ClickhouseEventRecordType::Visitor,
            IngestEvent::Session(_) => ClickhouseEventRecordType::Session,
            IngestEvent::Section(_) => ClickhouseEventRecordType::Section,
            IngestEvent::Click(_) => ClickhouseEventRecordType::Click,
        }
    }

    /// Map an event variant to its storage kind.
    pub fn of_event(ev: &IngestEvent) -> (r: Self)
        ensures
            r == Self::spec_of_event(*ev),
    {
        match ev {
            IngestEvent::Visitor(_) => ClickhouseEventRecordType::Visitor,
            IngestEvent::Session(_) => ClickhouseEventRecordType::Session,
            IngestEvent::Section(_) => ClickhouseEventRecordType::Section,
            IngestEvent::Click(_) => ClickhouseEventRecordType::Click,
        }
    }
}

/// One row of the common event table: the shared fields flattened, plus the
/// variant-specific data as (key, value) attribute pairs.
#[derive(Debug, Clone, PartialEq, Eq)]
pub struct ClickhouseEventRecord {
    /// Credential string, exactly as held by the event.
    pub api_key: String,
    /// Site string, exactly as held by the event.
    pub site: String,
    /// The stable storage kind of the event.
    pub event_type: ClickhouseEventRecordType,
    /// The event's identifier.
    pub id: EventId,
    /// The event's derived timestamp.
    pub ts: EventTimestamp,
    /// Variant-specific data under well-known keys: `parent`, and for
    /// sections optionally `location` and `title`.
    pub attrs: Vec<(String, String)>,
}

/// The attribute list as a sequence of character-sequence pairs.
pub open spec fn spec_attrs_view(attrs: Vec<(String, String)>) -> Seq<(Seq<char>, Seq<char>)> {
    attrs@.map_values(|p: (String, String)| (p.0@, p.1@))
}

/// The attribute pairs a stored event carries: nothing for a visitor; the
/// parent reference for the other variants, rendered in canonical hyphenated
/// form; and for a section the optional location and title, in that order.
pub open spec fn spec_attrs_of_event(ev: IngestEvent) -> Seq<(Seq<char>, Seq<char>)> {
    match ev {
        IngestEvent::Visitor(_) => Seq::empty(),
        IngestEvent::Session(e) => seq![("parent"@, spec_hyphenated(e.parent@))],
        IngestEvent::Section(e) => seq![("parent"@, spec_hyphenated(e.parent@))] + (match e
            .location {
            Some(l) => seq![("location"@, l@)],
            None => Seq::empty(),
        }) + (match e.title {
            Some(t) => seq![("title"@, t@)],
            None => Seq::empty(),
        }),
        IngestEvent::Click(e) => seq![("parent"@, spec_hyphenated(e.parent@))],
    }
}

/// What it means for a row to be the faithful flattening of an event: every
/// column equals the corresponding event field, the kind is the variant's
/// stable one, and the attributes are exactly the variant's pairs.
pub open spec fn record_matches_event(r: ClickhouseEventRecord, ev: IngestEvent) -> bool {
    &&& r.api_key@ == ev.spec_api_key()@
    &&& r.site@ == ev.spec_site()@
    &&& r.event_type == ClickhouseEventRecordType::spec_of_event(ev)
    &&& r.id == ev.spec_id()
    &&& r.ts == ev.spec_ts()
    &&& spec_attrs_view(r.attrs) == spec_attrs_of_event(ev)
}

impl ClickhouseEventRecord {
    /// Flatten one validated event into its storage row. Total: every
    /// validated event has a row.
    pub fn from_event(ev: &IngestEvent) -> (r: Self)
        ensures
            record_matches_event(r, *ev),
    {
        let event_type = ClickhouseEventRecordType::of_event(ev);
        let api_key = ev.api_key_string();
        let site = ev.site_string();
        let id = ev.id();
        let ts = ev.ts();
        let mut attrs: Vec<(String, String)> = Vec::new();
        match ev {
            IngestEvent::Visitor(_) => {},
            IngestEvent::Session(e) => {
                attrs.push((copy_str("parent"), e.parent.to_hyphenated_string()));
            },
            IngestEvent::Section(e) => {
                attrs.push((copy_str("parent"), e.parent.to_hyphenated_string()));
                match &e.location {
                    Some(l) => attrs.push((copy_str("location"), copy_string(l))),
                    None => {},
                }
                match &e.title {
                    Some(t) => attrs.push((copy_str("title"), copy_string(t))),
                    None => {},
                }
            },
            IngestEvent::Click(e) => {
                attrs.push((copy_str("parent"), e.parent.to_hyphenated_string()));
            },
        }
        proof {
            assert(spec_attrs_view(attrs) =~= spec_attrs_of_event(*ev));
        }
        ClickhouseEventRecord { api_key, site, event_type, id, ts, attrs }
    }
}

/// Law: a visitor event built from identifier `id` at an instant where
/// validation succeeds, once flattened, yields a row carrying exactly that
/// identifier, the stable visitor code 1, the timestamp derived from the
/// identifier, and no attributes.
pub proof fn lemma_visitor_round_trip(
    api_key: ApiKey,
    site: Site,
    id: EventId,
    now: int,
    ev: VisitorEvent,
    row: ClickhouseEventRecord,
)
    requires
        spec_validate_core(api_key@, site@, id@, now) is Ok,
        ev.api_key == api_key,
        ev.site == site,
        ev.id == id,
        spec_validate_core(api_key@, site@, id@, now) matches Ok(ts) && ev.ts.unix_seconds == ts,
        record_matches_event(row, IngestEvent::Visitor(ev)),
    ensures
        row.id == id,
        row.event_type.spec_code() == 1,
        spec_try_uuid_datetime(id@) matches Ok(ts) && row.ts.unix_seconds == ts,
        spec_attrs_view(row.attrs) == Seq::<(Seq<char>, Seq<char>)>::empty(),
{
}

} // verus!
