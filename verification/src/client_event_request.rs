//! Translation of wire-level client requests into domain events: one header
//! set per HTTP request, one body record per event, each record translated
//! independently and the whole request aborted on the first failure.
use vstd::prelude::*;

use crate::event_id::EventId;
use crate::ingest_event::{
    spec_static_validate, ApiKey, IngestEvent, IngestEventError, SectionEvent, SessionEvent, Site,
    VisitorEvent, ClickEvent,
};
use crate::ingest_event_service::IngestServiceError;
use crate::text::{copy_str, copy_string, str_eq, trimmed};

verus! {

/// The type tag of an analytics event as submitted by the client. It must
/// line up with the storage record kind.
#[derive(Debug, Clone, Copy, PartialEq, Eq, Structural)]
pub enum ClientEventRequestType {
    /// First contact from an unrecognized user.
    Visitor,
    /// A new session for an established visitor.
    Session,
    /// A section shown within a session.
    Section,
    /// An interaction with an element of a section.
    Click,
}

/// Error cases at the HTTP tier, mostly wrapping errors from lower layers.
#[derive(Clone, Debug, PartialEq, Eq, Structural)]
pub enum ClientEventRequestError {
    /// The api key header is missing or unreadable.
    ApiKey,
    /// Converting the request into a domain event failed.
    IngestEvent(IngestEventError),
    /// The ingest service reported an error.
    IngestService(IngestServiceError),
    /// The request body is invalid: a required attribute is missing or does
    /// not parse.
    InvalidRequestBody,
    /// The request headers are invalid: origin or user agent missing or
    /// unreadable.
    InvalidRequestHeaders,
    /// An event of one type was built from input tagged as another; this
    /// cannot happen through the translation entry point.
    TypeMismatch,
}

impl ClientEventRequestError {
    /// Wrap a domain validation error.
    pub fn of_event_error(e: IngestEventError) -> (r: Self)
        ensures
            r == ClientEventRequestError::IngestEvent(e),
    {
        ClientEventRequestError::IngestEvent(e)
    }

    /// Wrap a service error.
    pub fn of_service_error(e: IngestServiceError) -> (r: Self)
        ensures
            r == ClientEventRequestError::IngestService(e),
    {
        ClientEventRequestError::IngestService(e)
    }

    /// The HTTP status class each error maps to: client-caused errors to
    /// 400, server-internal ones to 500. No error detail is ever sent to the
    /// untrusted client.
    pub open spec fn spec_status(self) -> u16 {
        match self {
            ClientEventRequestError::ApiKey => 400,
            ClientEventRequestError::IngestEvent(_) => 400,
            ClientEventRequestError::InvalidRequestBody => 400,
            ClientEventRequestError::InvalidRequestHeaders => 400,
            ClientEventRequestError::IngestService(_) => 500,
            ClientEventRequestError::TypeMismatch => 500,
        }
    }

    /// The HTTP status code this error surfaces as.
    pub fn status(&self) -> (r: u16)
        ensures
            r == self.spec_status(),
    {
        match self {
            ClientEventRequestError::ApiKey => 400,
            ClientEventRequestError::IngestEvent(_) => 400,
            ClientEventRequestError::InvalidRequestBody => 400,
            ClientEventRequestError::InvalidRequestHeaders => 400,
            ClientEventRequestError::IngestService(_) => 500,
            ClientEventRequestError::TypeMismatch => 500,
        }
    }
}

/// The header-borne part of a client request: the api key from its dedicated
/// header, the site as the host component of the Origin header, and the
/// user agent.
#[derive(Debug, Clone)]
pub struct ClientEventRequestHeaders {
    /// The tenant credential, as sent.
    pub api_key: String,
    /// The originating web property, as extracted from Origin.
    pub site: String,
    /// The client's user agent string.
    pub user_agent: String,
}

impl ClientEventRequestHeaders {
    /// Build the header set from its three extracted values.
    pub fn new(api_key: &str, site: &str, user_agent: &str) -> (r: Self)
        ensures
            r.api_key@ == api_key@,
            r.site@ == site@,
            r.user_agent@ == user_agent@,
    {
        ClientEventRequestHeaders {
            api_key: copy_str(api_key),
            site: copy_str(site),
            user_agent: copy_str(user_agent),
        }
    }

    /// The api key value.
    pub fn api_key(&self) -> (r: &str)
        ensures
            r@ == self.api_key@,
    {
        self.api_key.as_str()
    }

    /// The site value.
    pub fn site(&self) -> (r: &str)
        ensures
            r@ == self.site@,
    {
        self.site.as_str()
    }
}

/// The body-borne part of one event record: the type tag selecting the
/// variant, the identifier, and an optional attribute map as key/value
/// pairs.
#[derive(Debug, Clone)]
pub struct ClientEventRequestBody {
    /// Which event variant this record asks for.
    pub event_type: ClientEventRequestType,
    /// The event identifier; must be time-ordered and recent.
    pub id: EventId,
    /// Attribute pairs; `parent` is required for every variant but Visitor.
    pub attrs: Option<Vec<(String, String)>>,
}

impl ClientEventRequestBody {
    /// Build one body record.
    pub fn new(
        event_type: ClientEventRequestType,
        id: EventId,
        attrs: Option<Vec<(String, String)>>,
    ) -> (r: Self)
        ensures
            r == (ClientEventRequestBody { event_type, id, attrs }),
    {
        ClientEventRequestBody { event_type, id, attrs }
    }
}

/// One full client event request: shared headers plus one body record.
#[derive(Debug, Clone)]
pub struct ClientEventRequest {
    /// The header-borne fields, shared by every record of the HTTP request.
    pub headers: ClientEventRequestHeaders,
    /// This record's body.
    pub body: ClientEventRequestBody,
}

/// An optional attribute list as character-sequence pairs; an absent list
/// is the empty sequence.
pub open spec fn spec_attrs_opt_view(attrs: Option<Vec<(String, String)>>) -> Seq<
    (Seq<char>, Seq<char>),
> {
    match attrs {
        None => Seq::empty(),
        Some(v) => v@.map_values(|p: (String, String)| (p.0@, p.1@)),
    }
}

/// The attribute pairs of a body as character sequences; an absent map is
/// the empty sequence.
pub open spec fn spec_body_attrs(body: ClientEventRequestBody) -> Seq<(Seq<char>, Seq<char>)> {
    spec_attrs_opt_view(body.attrs)
}

/// First-match lookup of a key in an attribute list.
pub open spec fn spec_attr_lookup(attrs: Seq<(Seq<char>, Seq<char>)>, key: Seq<char>) -> Option<
    Seq<char>,
>
    decreases attrs.len(),
{
    if attrs.len() == 0 {
        None
    } else if attrs[0].0 == key {
        Some(attrs[0].1)
    } else {
        spec_attr_lookup(attrs.drop_first(), key)
    }
}

/// When the first match sits at position `i`, the lookup returns its value.
proof fn lemma_attr_lookup_at(attrs: Seq<(Seq<char>, Seq<char>)>, key: Seq<char>, i: int)
    requires
        0 <= i < attrs.len(),
        forall|j: int| 0 <= j < i ==> attrs[j].0 != key,
        attrs[i].0 == key,
    ensures
        spec_attr_lookup(attrs, key) == Some(attrs[i].1),
    decreases i,
{
    if i > 0 {
        lemma_attr_lookup_at(attrs.drop_first(), key, i - 1);
    }
}

/// When no pair carries the key, the lookup returns nothing.
proof fn lemma_attr_lookup_none(attrs: Seq<(Seq<char>, Seq<char>)>, key: Seq<char>)
    requires
        forall|j: int| 0 <= j < attrs.len() ==> attrs[j].0 != key,
    ensures
        spec_attr_lookup(attrs, key) is None,
    decreases attrs.len(),
{
    if attrs.len() > 0 {
        lemma_attr_lookup_none(attrs.drop_first(), key);
    }
}

/// First-match lookup of `key` in a body's attribute list.
#[verifier::loop_isolation(false)]
fn attr_lookup<'a>(attrs: &'a Option<Vec<(String, String)>>, key: &str) -> (r: Option<&'a String>)
    ensures
        match r {
            Some(v) => spec_attr_lookup(spec_attrs_opt_view(*attrs), key@) == Some(v@),
            None => spec_attr_lookup(spec_attrs_opt_view(*attrs), key@) is None,
        },
{
    match attrs {
        None => None,
        Some(pairs) => {
            let ghost view = pairs@.map_values(|p: (String, String)| (p.0@, p.1@));
            let n = pairs.len();
            let mut i: usize = 0;
            while i < n
                invariant
                    0 <= i <= n,
                    n == pairs@.len(),
                    view == pairs@.map_values(|p: (String, String)| (p.0@, p.1@)),
                    forall|j: int| 0 <= j < i ==> view[j].0 != key@,
                decreases n - i,
            {
                let pair = &pairs[i];
                if str_eq(pair.0.as_str(), key) {
                    proof {
                        assert(view[i as int] == (pairs@[i as int].0@, pairs@[i as int].1@));
                        lemma_attr_lookup_at(view, key@, i as int);
                        assert(spec_attrs_opt_view(*attrs) =~= view);
                    }
                    return Some(&pair.1);
                }
                i = i + 1;
            }
            proof {
                lemma_attr_lookup_none(view, key@);
                assert(spec_attrs_opt_view(*attrs) =~= view);
            }
            None
        },
    }
}

impl ClientEventRequest {
    /// Look up an attribute given in this request's body.
    pub fn attr(&self, key: &str) -> (r: Option<&String>)
        ensures
            match r {
                Some(v) => spec_attr_lookup(spec_body_attrs(self.body), key@) == Some(v@),
                None => spec_attr_lookup(spec_body_attrs(self.body), key@) is None,
            },
    {
        attr_lookup(&self.body.attrs, key)
    }

    /// Translate this request into a domain event; behaves exactly as
    /// translating its body under its headers.
    pub fn try_into_event(&self) -> (r: Result<IngestEvent, ClientEventRequestError>)
        ensures
            ({
                match spec_translate_static(self.headers, self.body) {
                    Err(e) => r == Err::<IngestEvent, ClientEventRequestError>(e),
                    Ok(ts) => match r {
                        Ok(ev) => spec_translated_event_matches(self.headers, self.body, ev, ts),
                        Err(e) => e == ClientEventRequestError::IngestEvent(
                            IngestEventError::TimestampOutOfRange,
                        ),
                    },
                }
            }),
    {
        ingest_event_from_parts(&self.headers, &self.body)
    }
}

/// A string's 128-bit identifier value when the identifier parser accepts
/// it. Which strings are accepted, and to which value each parses, depends
/// on the characters alone.
pub uninterp spec fn uuid_parse_of(s: Seq<char>) -> Option<u128>;

/// Relies on `uuid::Uuid::parse_str` (with `as_u128`): parsing a string as
/// an identifier is a function of its characters alone.
#[verifier::external_body]
fn parse_uuid_str(s: &str) -> (r: Option<u128>)
    ensures
        r == uuid_parse_of(s@),
{
    match uuid::Uuid::parse_str(s) {
        Ok(u) => Some(u.as_u128()),
        Err(_) => None,
    }
}

/// The parent identifier a body record designates: its `parent` attribute,
/// parsed as an identifier; nothing when the attribute is absent or does not
/// parse.
pub open spec fn spec_parent_of(body: ClientEventRequestBody) -> Option<u128> {
    match spec_attr_lookup(spec_body_attrs(body), "parent"@) {
        None => None,
        Some(s) => uuid_parse_of(s),
    }
}

/// The checks of translation that do not depend on the wall clock, with the
/// exact error each failure reports: a missing or unparsable parent is
/// `InvalidRequestBody`; domain validation errors are wrapped. `Ok` carries
/// the timestamp the identifier derives to.
pub open spec fn spec_translate_static(
    headers: ClientEventRequestHeaders,
    body: ClientEventRequestBody,
) -> Result<int, ClientEventRequestError> {
    let key = trimmed(headers.api_key@);
    let site = trimmed(headers.site@);
    if body.event_type is Visitor {
        spec_wrap_static(spec_static_validate(key, site, body.id@))
    } else {
        match spec_parent_of(body) {
            None => Err(ClientEventRequestError::InvalidRequestBody),
            Some(_) => spec_wrap_static(spec_static_validate(key, site, body.id@)),
        }
    }
}

/// Domain validation outcomes lifted to the HTTP tier's error type.
pub open spec fn spec_wrap_static(v: Result<int, IngestEventError>) -> Result<
    int,
    ClientEventRequestError,
> {
    match v {
        Ok(ts) => Ok(ts),
        Err(e) => Err(ClientEventRequestError::IngestEvent(e)),
    }
}

/// A view of an optional owned string.
pub open spec fn spec_opt_string_view(o: Option<String>) -> Option<Seq<char>> {
    match o {
        None => None,
        Some(s) => Some(s@),
    }
}

/// What a successfully translated event looks like for its request: the
/// variant follows the type tag; api key and site are the trimmed header
/// values; the identifier and derived timestamp come from the body; the
/// parent is the parsed `parent` attribute; a section also carries the
/// optional `location` and `title` attributes.
pub open spec fn spec_translated_event_matches(
    headers: ClientEventRequestHeaders,
    body: ClientEventRequestBody,
    ev: IngestEvent,
    ts: int,
) -> bool {
    &&& ev.spec_api_key()@ == trimmed(headers.api_key@)
    &&& ev.spec_site()@ == trimmed(headers.site@)
    &&& ev.spec_id() == body.id
    &&& ev.spec_ts().unix_seconds == ts
    &&& match body.event_type {
        ClientEventRequestType::Visitor => ev is Visitor,
        ClientEventRequestType::Session => ev matches IngestEvent::Session(s) && Some(s.parent@)
            == spec_parent_of(body),
        ClientEventRequestType::Section => ev matches IngestEvent::Section(s) && Some(s.parent@)
            == spec_parent_of(body) && spec_opt_string_view(s.location) == spec_attr_lookup(
            spec_body_attrs(body),
            "location"@,
        ) && spec_opt_string_view(s.title) == spec_attr_lookup(spec_body_attrs(body), "title"@),
        ClientEventRequestType::Click => ev matches IngestEvent::Click(c) && Some(c.parent@)
            == spec_parent_of(body),
    }
}

/// Translate one body record, under the request's headers, into a domain
/// event. The clock-independent checks behave exactly as
/// `spec_translate_static` says; when they pass, the result is either the
/// translated event or the out-of-range rejection, according to the wall
/// clock.
pub fn ingest_event_from_parts(
    headers: &ClientEventRequestHeaders,
    body: &ClientEventRequestBody,
) -> (r: Result<IngestEvent, ClientEventRequestError>)
    ensures
        ({
            match spec_translate_static(*headers, *body) {
                Err(e) => r == Err::<IngestEvent, ClientEventRequestError>(e),
                Ok(ts) => match r {
                    Ok(ev) => spec_translated_event_matches(*headers, *body, ev, ts),
                    Err(e) => e == ClientEventRequestError::IngestEvent(
                        IngestEventError::TimestampOutOfRange,
                    ),
                },
            }
        }),
{
    let api_key = ApiKey::new(headers.api_key.as_str());
    let site = Site::new(headers.site.as_str());
    match body.event_type {
        ClientEventRequestType::Visitor => {
            match VisitorEvent::try_new(api_key, site, body.id) {
                Ok(ev) => Ok(IngestEvent::Visitor(ev)),
                Err(e) => Err(ClientEventRequestError::IngestEvent(e)),
            }
        },
        ClientEventRequestType::Session => {
            let parent = match resolve_parent(body) {
                Ok(p) => p,
                Err(e) => {
                    return Err(e);
                },
            };
            match SessionEvent::try_new(api_key, site, body.id, parent) {
                Ok(ev) => Ok(IngestEvent::Session(ev)),
                Err(e) => Err(ClientEventRequestError::IngestEvent(e)),
            }
        },
        ClientEventRequestType::Section => {
            let parent = match resolve_parent(body) {
                Ok(p) => p,
                Err(e) => {
                    return Err(e);
                },
            };
            let location = match attr_lookup(&body.attrs, "location") {
                Some(s) => Some(copy_string(s)),
                None => None,
            };
            let title = match attr_lookup(&body.attrs, "title") {
                Some(s) => Some(copy_string(s)),
                None => None,
            };
            match SectionEvent::try_new(api_key, site, body.id, parent, location, title) {
                Ok(ev) => Ok(IngestEvent::Section(ev)),
                Err(e) => Err(ClientEventRequestError::IngestEvent(e)),
            }
        },
        ClientEventRequestType::Click => {
            let parent = match resolve_parent(body) {
                Ok(p) => p,
                Err(e) => {
                    return Err(e);
                },
            };
            match ClickEvent::try_new(api_key, site, body.id, parent) {
                Ok(ev) => Ok(IngestEvent::Click(ev)),
                Err(e) => Err(ClientEventRequestError::IngestEvent(e)),
            }
        },
    }
}

/// Resolve the required `parent` attribute of a body record to an
/// identifier; absence or parse failure is `InvalidRequestBody`.
fn resolve_parent(body: &ClientEventRequestBody) -> (r: Result<EventId, ClientEventRequestError>)
    ensures
        match r {
            Ok(p) => Some(p@) == spec_parent_of(*body),
            Err(e) => e == ClientEventRequestError::InvalidRequestBody && spec_parent_of(*body)
                is None,
        },
{
    let parent_str = match attr_lookup(&body.attrs, "parent") {
        Some(s) => s,
        None => {
            return Err(ClientEventRequestError::InvalidRequestBody);
        },
    };
    match parse_uuid_str(parent_str.as_str()) {
        Some(bits) => Ok(EventId::from_u128(bits)),
        None => Err(ClientEventRequestError::InvalidRequestBody),
    }
}

/// Translate every body record of one request, under its shared header set,
/// aborting the whole request on the first record that fails. On success
/// there is exactly one event per record, in order, each the faithful
/// translation of its record.
pub fn events_from_requests(
    headers: &ClientEventRequestHeaders,
    bodies: &Vec<ClientEventRequestBody>,
) -> (r: Result<Vec<IngestEvent>, ClientEventRequestError>)
    ensures
        r matches Ok(evs) ==> evs@.len() == bodies@.len() && (forall|i: int|
            0 <= i < bodies@.len() ==> (spec_translate_static(*headers, bodies@[i]) matches Ok(ts)
                && spec_translated_event_matches(*headers, #[trigger] bodies@[i], evs@[i], ts))),
        r matches Err(e) ==> exists|i: int|
            0 <= i < bodies@.len() && (spec_translate_static(*headers, #[trigger] bodies@[i])
                == Err::<int, ClientEventRequestError>(e) || e
                == ClientEventRequestError::IngestEvent(IngestEventError::TimestampOutOfRange)),
{
    let n = bodies.len();
    let mut events: Vec<IngestEvent> = Vec::new();
    let mut i: usize = 0;
    while i < n
        invariant
            0 <= i <= n,
            n == bodies@.len(),
            events@.len() == i,
            forall|j: int|
                0 <= j < i ==> (spec_translate_static(*headers, bodies@[j]) matches Ok(ts)
                    && spec_translated_event_matches(
                    *headers,
                    #[trigger] bodies@[j],
                    events@[j],
                    ts,
                )),
        decreases n - i,
    {
        match ingest_event_from_parts(headers, &bodies[i]) {
            Ok(ev) => events.push(ev),
            Err(e) => {
                return Err(e);
            },
        }
        i = i + 1;
    }
    Ok(events)
}

} // verus!
