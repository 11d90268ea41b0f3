//! Domain model for ingestion events: validated credential/site newtypes and
//! the four event variants, each constructed through validating constructors.
use vstd::prelude::*;

use crate::event_id::{
    is_ts_within_ingest_range_at, now_unix_seconds, spec_try_uuid_datetime, spec_uuid_version,
    spec_within_ingest_range, try_uuid_datetime, EventId, EventTimestamp,
};
use crate::text::{copy_string, trim_str, trimmed};

verus! {

/// Domain error cases for event construction. These arise from domain rules
/// alone, never from infrastructure.
#[derive(Clone, Debug, PartialEq, Eq, Structural)]
pub enum IngestEventError {
    /// The api key submitted was empty after trimming.
    ApiKey,
    /// The site submitted was empty after trimming.
    Site,
    /// The timestamp embedded in the identifier lies outside the window the
    /// system accepts for new events.
    TimestampOutOfRange,
    /// The identifier is not of the time-ordered (version 7) kind.
    UuidVersion,
    /// The embedded timestamp could not be converted to a calendar instant.
    UuidTimestampConversion,
}

/// Newtype wrapper for the api key string. The stored value is always the
/// trimmed form of what was supplied.
#[derive(Debug, Clone, Eq, Hash, PartialEq)]
pub struct ApiKey {
    api_key: String,
}

impl View for ApiKey {
    type V = Seq<char>;

    closed spec fn view(&self) -> Seq<char> {
        self.api_key@
    }
}

impl ApiKey {
    /// Build an `ApiKey`, trimming surrounding whitespace from the input.
    pub fn new(key: &str) -> (r: Self)
        ensures
            r@ == trimmed(key@),
    {
        ApiKey { api_key: String::from_str(trim_str(key)) }
    }

    /// Read access to the stored api key value.
    pub fn value(&self) -> (r: &String)
        ensures
            r@ == self@,
    {
        &self.api_key
    }
}

/// Newtype wrapper for the site an event comes from. The stored value is
/// always the trimmed form of what was supplied.
#[derive(Debug, Clone, Eq, Hash, PartialEq)]
pub struct Site {
    site: String,
}

impl View for Site {
    type V = Seq<char>;

    closed spec fn view(&self) -> Seq<char> {
        self.site@
    }
}

impl Site {
    /// Build a `Site`, trimming surrounding whitespace from the input.
    pub fn new(site: &str) -> (r: Self)
        ensures
            r@ == trimmed(site@),
    {
        Site { site: String::from_str(trim_str(site)) }
    }

    /// Read access to the stored site value.
    pub fn value(&self) -> (r: &String)
        ensures
            r@ == self@,
    {
        &self.site
    }
}

/// Owned copy of an `ApiKey` with the same stored value.
fn clone_api_key(key: &ApiKey) -> (r: ApiKey)
    ensures
        r@ == key@,
{
    ApiKey { api_key: copy_string(&key.api_key) }
}

/// Owned copy of a `Site` with the same stored value.
fn clone_site(site: &Site) -> (r: Site)
    ensures
        r@ == site@,
{
    Site { site: copy_string(&site.site) }
}

/// The combination of api key and site into a single value identifying one
/// authorized ingestion channel.
#[derive(Debug, Clone, PartialEq, Eq, Hash)]
pub struct IngestEventSource {
    api_key: ApiKey,
    site: Site,
}

impl View for IngestEventSource {
    type V = (Seq<char>, Seq<char>);

    closed spec fn view(&self) -> (Seq<char>, Seq<char>) {
        (self.api_key@, self.site@)
    }
}

impl IngestEventSource {
    /// Pair an api key with a site.
    pub fn new(api_key: ApiKey, site: Site) -> (r: Self)
        ensures
            r@ == (api_key@, site@),
    {
        IngestEventSource { api_key, site }
    }

    /// The api key of this channel.
    pub fn api_key(&self) -> (r: &ApiKey)
        ensures
            r@ == self@.0,
    {
        &self.api_key
    }

    /// The site of this channel.
    pub fn site(&self) -> (r: &Site)
        ensures
            r@ == self@.1,
    {
        &self.site
    }
}

/// The static part of core validation: the checks that do not depend on the
/// wall clock, in the order the system applies them. The api key is checked
/// before the site, and both before the identifier.
pub open spec fn spec_static_validate(
    api_key: Seq<char>,
    site: Seq<char>,
    id: u128,
) -> Result<int, IngestEventError> {
    if api_key.len() == 0 {
        Err(IngestEventError::ApiKey)
    } else if site.len() == 0 {
        Err(IngestEventError::Site)
    } else {
        spec_try_uuid_datetime(id)
    }
}

/// Full core validation against the instant `now`: the static checks, then
/// the recency window on the derived timestamp.
pub open spec fn spec_validate_core(
    api_key: Seq<char>,
    site: Seq<char>,
    id: u128,
    now: int,
) -> Result<int, IngestEventError> {
    match spec_static_validate(api_key, site, id) {
        Err(e) => Err(e),
        Ok(ts) => if spec_within_ingest_range(ts, now) {
            Ok(ts)
        } else {
            Err(IngestEventError::TimestampOutOfRange)
        },
    }
}

/// The common fields every event variant carries. The timestamp is strictly
/// derived from the identifier, which must be of the time-ordered kind and
/// recent for construction to succeed.
#[derive(Debug, Clone)]
pub struct IngestEventCore {
    /// Credential tying the event to a client and site.
    pub api_key: ApiKey,
    /// The site the event is coming from.
    pub site: Site,
    /// Time-ordered unique identifier; the sole source of the timestamp.
    pub id: EventId,
    /// The timestamp derived from `id`.
    pub ts: EventTimestamp,
}

impl IngestEventCore {
    /// Validating constructor against an explicit wall-clock instant: the
    /// result is exactly what `spec_validate_core` prescribes.
    pub fn try_new_at(api_key: ApiKey, site: Site, id: EventId, now: i64) -> (r: Result<
        Self,
        IngestEventError,
    >)
        ensures
            ({
                match (r, spec_validate_core(api_key@, site@, id@, now as int)) {
                    (Ok(c), Ok(ts)) => c.api_key == api_key && c.site == site && c.id == id
                        && c.ts.unix_seconds == ts,
                    (Err(a), Err(b)) => a == b,
                    _ => false,
                }
            }),
    {
        if api_key.value().as_str().unicode_len() == 0 {
            return Err(IngestEventError::ApiKey);
        }
        if site.value().as_str().unicode_len() == 0 {
            return Err(IngestEventError::Site);
        }
        let ts = match try_uuid_datetime(id) {
            Ok(t) => t,
            Err(e) => {
                return Err(e);
            },
        };
        if is_ts_within_ingest_range_at(ts, now) {
            Ok(IngestEventCore { api_key, site, id, ts })
        } else {
            Err(IngestEventError::TimestampOutOfRange)
        }
    }

    /// Validating constructor against the wall clock. The checks that do not
    /// depend on the clock behave exactly as `spec_static_validate` says;
    /// when they pass, the result is either the constructed core or
    /// `TimestampOutOfRange`, according to the instant the clock reported.
    pub fn try_new(api_key: ApiKey, site: Site, id: EventId) -> (r: Result<
        Self,
        IngestEventError,
    >)
        ensures
            ({
                match spec_static_validate(api_key@, site@, id@) {
                    Err(e) => r == Err::<IngestEventCore, IngestEventError>(e),
                    Ok(ts) => match r {
                        Ok(c) => c.api_key == api_key && c.site == site && c.id == id
                            && c.ts.unix_seconds == ts,
                        Err(e) => e == IngestEventError::TimestampOutOfRange,
                    },
                }
            }),
    {
        let now = now_unix_seconds();
        Self::try_new_at(api_key, site, id, now)
    }
}

/// An event marking first contact from an unrecognized user; the root every
/// later event of that user descends from.
#[derive(Debug, Clone)]
pub struct VisitorEvent {
    /// Credential tying the event to a client and site.
    pub api_key: ApiKey,
    /// The site the event is coming from.
    pub site: Site,
    /// Time-ordered unique identifier; the sole source of the timestamp.
    pub id: EventId,
    /// The timestamp derived from `id`.
    pub ts: EventTimestamp,
}

/// A new session started by an established visitor.
#[derive(Debug, Clone)]
pub struct SessionEvent {
    /// Credential tying the event to a client and site.
    pub api_key: ApiKey,
    /// The site the event is coming from.
    pub site: Site,
    /// Time-ordered unique identifier; the sole source of the timestamp.
    pub id: EventId,
    /// The timestamp derived from `id`.
    pub ts: EventTimestamp,
    /// The visitor this session belongs to.
    pub parent: EventId,
}

/// A section shown to a visitor within a session: a page vend, a rendered
/// screen, or the like.
#[derive(Debug, Clone)]
pub struct SectionEvent {
    /// Credential tying the event to a client and site.
    pub api_key: ApiKey,
    /// The site the event is coming from.
    pub site: Site,
    /// Time-ordered unique identifier; the sole source of the timestamp.
    pub id: EventId,
    /// The timestamp derived from `id`.
    pub ts: EventTimestamp,
    /// The session this section belongs to.
    pub parent: EventId,
    /// The location string portion of the section's URI, when given.
    pub location: Option<String>,
    /// The section's title, when given.
    pub title: Option<String>,
}

/// A click or other interaction with an element of a section.
#[derive(Debug, Clone)]
pub struct ClickEvent {
    /// Credential tying the event to a client and site.
    pub api_key: ApiKey,
    /// The site the event is coming from.
    pub site: Site,
    /// Time-ordered unique identifier; the sole source of the timestamp.
    pub id: EventId,
    /// The timestamp derived from `id`.
    pub ts: EventTimestamp,
    /// The section this click belongs to.
    pub parent: EventId,
}

impl VisitorEvent {
    /// Validating constructor against an explicit wall-clock instant.
    pub fn try_new_at(api_key: ApiKey, site: Site, id: EventId, now: i64) -> (r: Result<
        Self,
        IngestEventError,
    >)
        ensures
            ({
                match (r, spec_validate_core(api_key@, site@, id@, now as int)) {
                    (Ok(ev), Ok(ts)) => ev.api_key == api_key && ev.site == site && ev.id == id
                        && ev.ts.unix_seconds == ts,
                    (Err(a), Err(b)) => a == b,
                    _ => false,
                }
            }),
    {
        match IngestEventCore::try_new_at(api_key, site, id, now) {
            Err(e) => Err(e),
            Ok(core) => Ok(
                VisitorEvent { api_key: core.api_key, site: core.site, id: core.id, ts: core.ts },
            ),
        }
    }

    /// Validating constructor against the wall clock.
    pub fn try_new(api_key: ApiKey, site: Site, id: EventId) -> (r: Result<
        Self,
        IngestEventError,
    >)
        ensures
            ({
                match spec_static_validate(api_key@, site@, id@) {
                    Err(e) => r == Err::<VisitorEvent, IngestEventError>(e),
                    Ok(ts) => match r {
                        Ok(ev) => ev.api_key == api_key && ev.site == site && ev.id == id
                            && ev.ts.unix_seconds == ts,
                        Err(e) => e == IngestEventError::TimestampOutOfRange,
                    },
                }
            }),
    {
        let now = now_unix_seconds();
        Self::try_new_at(api_key, site, id, now)
    }
}

impl SessionEvent {
    /// Validating constructor against an explicit wall-clock instant.
    pub fn try_new_at(
        api_key: ApiKey,
        site: Site,
        id: EventId,
        parent: EventId,
        now: i64,
    ) -> (r: Result<Self, IngestEventError>)
        ensures
            ({
                match (r, spec_validate_core(api_key@, site@, id@, now as int)) {
                    (Ok(ev), Ok(ts)) => ev.api_key == api_key && ev.site == site && ev.id == id
                        && ev.ts.unix_seconds == ts && ev.parent == parent,
                    (Err(a), Err(b)) => a == b,
                    _ => false,
                }
            }),
    {
        match IngestEventCore::try_new_at(api_key, site, id, now) {
            Err(e) => Err(e),
            Ok(core) => Ok(
                SessionEvent {
                    api_key: core.api_key,
                    site: core.site,
                    id: core.id,
                    ts: core.ts,
                    parent,
                },
            ),
        }
    }

    /// Validating constructor against the wall clock.
    pub fn try_new(api_key: ApiKey, site: Site, id: EventId, parent: EventId) -> (r: Result<
        Self,
        IngestEventError,
    >)
        ensures
            ({
                match spec_static_validate(api_key@, site@, id@) {
                    Err(e) => r == Err::<SessionEvent, IngestEventError>(e),
                    Ok(ts) => match r {
                        Ok(ev) => ev.api_key == api_key && ev.site == site && ev.id == id
                            && ev.ts.unix_seconds == ts && ev.parent == parent,
                        Err(e) => e == IngestEventError::TimestampOutOfRange,
                    },
                }
            }),
    {
        let now = now_unix_seconds();
        Self::try_new_at(api_key, site, id, parent, now)
    }
}

impl SectionEvent {
    /// Validating constructor against an explicit wall-clock instant.
    pub fn try_new_at(
        api_key: ApiKey,
        site: Site,
        id: EventId,
        parent: EventId,
        location: Option<String>,
        title: Option<String>,
        now: i64,
    ) -> (r: Result<Self, IngestEventError>)
        ensures
            ({
                match (r, spec_validate_core(api_key@, site@, id@, now as int)) {
                    (Ok(ev), Ok(ts)) => ev.api_key == api_key && ev.site == site && ev.id == id
                        && ev.ts.unix_seconds == ts && ev.parent == parent && ev.location
                        == location && ev.title == title,
                    (Err(a), Err(b)) => a == b,
                    _ => false,
                }
            }),
    {
        match IngestEventCore::try_new_at(api_key, site, id, now) {
            Err(e) => Err(e),
            Ok(core) => Ok(
                SectionEvent {
                    api_key: core.api_key,
                    site: core.site,
                    id: core.id,
                    ts: core.ts,
                    parent,
                    location,
                    title,
                },
            ),
        }
    }

    /// Validating constructor against the wall clock.
    pub fn try_new(
        api_key: ApiKey,
        site: Site,
        id: EventId,
        parent: EventId,
        location: Option<String>,
        title: Option<String>,
    ) -> (r: Result<Self, IngestEventError>)
        ensures
            ({
                match spec_static_validate(api_key@, site@, id@) {
                    Err(e) => r == Err::<SectionEvent, IngestEventError>(e),
                    Ok(ts) => match r {
                        Ok(ev) => ev.api_key == api_key && ev.site == site && ev.id == id
                            && ev.ts.unix_seconds == ts && ev.parent == parent && ev.location
                            == location && ev.title == title,
                        Err(e) => e == IngestEventError::TimestampOutOfRange,
                    },
                }
            }),
    {
        let now = now_unix_seconds();
        Self::try_new_at(api_key, site, id, parent, location, title, now)
    }
}

impl ClickEvent {
    /// Validating constructor against an explicit wall-clock instant.
    pub fn try_new_at(
        api_key: ApiKey,
        site: Site,
        id: EventId,
        parent: EventId,
        now: i64,
    ) -> (r: Result<Self, IngestEventError>)
        ensures
            ({
                match (r, spec_validate_core(api_key@, site@, id@, now as int)) {
                    (Ok(ev), Ok(ts)) => ev.api_key == api_key && ev.site == site && ev.id == id
                        && ev.ts.unix_seconds == ts && ev.parent == parent,
                    (Err(a), Err(b)) => a == b,
                    _ => false,
                }
            }),
    {
        match IngestEventCore::try_new_at(api_key, site, id, now) {
            Err(e) => Err(e),
            Ok(core) => Ok(
                ClickEvent {
                    api_key: core.api_key,
                    site: core.site,
                    id: core.id,
                    ts: core.ts,
                    parent,
                },
            ),
        }
    }

    /// Validating constructor against the wall clock.
    pub fn try_new(api_key: ApiKey, site: Site, id: EventId, parent: EventId) -> (r: Result<
        Self,
        IngestEventError,
    >)
        ensures
            ({
                match spec_static_validate(api_key@, site@, id@) {
                    Err(e) => r == Err::<ClickEvent, IngestEventError>(e),
                    Ok(ts) => match r {
                        Ok(ev) => ev.api_key == api_key && ev.site == site && ev.id == id
                            && ev.ts.unix_seconds == ts && ev.parent == parent,
                        Err(e) => e == IngestEventError::TimestampOutOfRange,
                    },
                }
            }),
    {
        let now = now_unix_seconds();
        Self::try_new_at(api_key, site, id, parent, now)
    }
}

/// The domain model over all event kinds the system handles.
#[derive(Debug, Clone)]
pub enum IngestEvent {
    /// First contact from an unrecognized user.
    Visitor(VisitorEvent),
    /// A new session for an established visitor.
    Session(SessionEvent),
    /// A section shown within a session.
    Section(SectionEvent),
    /// An interaction with an element of a section.
    Click(ClickEvent),
}

impl IngestEvent {
    /// The api key of whichever variant this is.
    pub open spec fn spec_api_key(&self) -> ApiKey {
        match self {
            IngestEvent::Visitor(e) => e.api_key,
            IngestEvent::Session(e) => e.api_key,
            IngestEvent::Section(e) => e.api_key,
            IngestEvent::Click(e) => e.api_key,
        }
    }

    /// The site of whichever variant this is.
    pub open spec fn spec_site(&self) -> Site {
        match self {
            IngestEvent::Visitor(e) => e.site,
            IngestEvent::Session(e) => e.site,
            IngestEvent::Section(e) => e.site,
            IngestEvent::Click(e) => e.site,
        }
    }

    /// The identifier of whichever variant this is.
    pub open spec fn spec_id(&self) -> EventId {
        match self {
            IngestEvent::Visitor(e) => e.id,
            IngestEvent::Session(e) => e.id,
            IngestEvent::Section(e) => e.id,
            IngestEvent::Click(e) => e.id,
        }
    }

    /// The derived timestamp of whichever variant this is.
    pub open spec fn spec_ts(&self) -> EventTimestamp {
        match self {
            IngestEvent::Visitor(e) => e.ts,
            IngestEvent::Session(e) => e.ts,
            IngestEvent::Section(e) => e.ts,
            IngestEvent::Click(e) => e.ts,
        }
    }

    /// The (api key, site) pair this event claims to come from.
    pub open spec fn spec_source_pair(&self) -> (Seq<char>, Seq<char>) {
        (self.spec_api_key()@, self.spec_site()@)
    }

    /// An owned copy of the event's api key string.
    pub fn api_key_string(&self) -> (r: String)
        ensures
            r@ == self.spec_api_key()@,
    {
        match self {
            IngestEvent::Visitor(e) => copy_string(e.api_key.value()),
            IngestEvent::Session(e) => copy_string(e.api_key.value()),
            IngestEvent::Section(e) => copy_string(e.api_key.value()),
            IngestEvent::Click(e) => copy_string(e.api_key.value()),
        }
    }

    /// An owned copy of the event's site string.
    pub fn site_string(&self) -> (r: String)
        ensures
            r@ == self.spec_site()@,
    {
        match self {
            IngestEvent::Visitor(e) => copy_string(e.site.value()),
            IngestEvent::Session(e) => copy_string(e.site.value()),
            IngestEvent::Section(e) => copy_string(e.site.value()),
            IngestEvent::Click(e) => copy_string(e.site.value()),
        }
    }

    /// The event's identifier.
    pub fn id(&self) -> (r: EventId)
        ensures
            r == self.spec_id(),
    {
        match self {
            IngestEvent::Visitor(e) => e.id,
            IngestEvent::Session(e) => e.id,
            IngestEvent::Section(e) => e.id,
            IngestEvent::Click(e) => e.id,
        }
    }

    /// The event's derived timestamp.
    pub fn ts(&self) -> (r: EventTimestamp)
        ensures
            r == self.spec_ts(),
    {
        match self {
            IngestEvent::Visitor(e) => e.ts,
            IngestEvent::Session(e) => e.ts,
            IngestEvent::Section(e) => e.ts,
            IngestEvent::Click(e) => e.ts,
        }
    }

    /// The ingestion channel this event claims to come from, for the
    /// authorization lookup.
    pub fn source(&self) -> (r: IngestEventSource)
        ensures
            r@ == self.spec_source_pair(),
    {
        let (api_key, site) = match self {
            IngestEvent::Visitor(e) => (clone_api_key(&e.api_key), clone_site(&e.site)),
            IngestEvent::Session(e) => (clone_api_key(&e.api_key), clone_site(&e.site)),
            IngestEvent::Section(e) => (clone_api_key(&e.api_key), clone_site(&e.site)),
            IngestEvent::Click(e) => (clone_api_key(&e.api_key), clone_site(&e.site)),
        };
        IngestEventSource::new(api_key, site)
    }
}

/// Law: an identifier that is not of the time-ordered (version 7) kind is
/// rejected with `UuidVersion` by core validation, for every api key, site
/// and instant on which validation reaches the identifier check.
pub proof fn lemma_non_v7_rejected(api_key: Seq<char>, site: Seq<char>, id: u128, now: int)
    requires
        api_key.len() > 0,
        site.len() > 0,
        spec_uuid_version(id) != 7,
    ensures
        spec_validate_core(api_key, site, id, now) == Err::<int, IngestEventError>(
            IngestEventError::UuidVersion,
        ),
{
}

/// Law: when the api key and the site are both empty, validation reports the
/// api key, whatever the identifier and the instant: the api key is checked
/// first.
pub proof fn lemma_api_key_checked_first(api_key: Seq<char>, site: Seq<char>, id: u128, now: int)
    requires
        api_key.len() == 0,
        site.len() == 0,
    ensures
        spec_validate_core(api_key, site, id, now) == Err::<int, IngestEventError>(
            IngestEventError::ApiKey,
        ),
{
}

} // verus!
