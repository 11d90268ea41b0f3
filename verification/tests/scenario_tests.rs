//! End-to-end scenarios through the public pipeline: translate wire records
//! under one header set, then authorize and flatten the batch.
use salus_ingest::clickhouse_event_record::ClickhouseEventRecord;
use salus_ingest::client_event_request::{
    events_from_requests, ClientEventRequestBody, ClientEventRequestError,
    ClientEventRequestHeaders, ClientEventRequestType,
};
use salus_ingest::clickhouse_source_record::ClickhouseSourceRecord;
use salus_ingest::event_id::EventId;
use salus_ingest::ingest_event::IngestEventError;
use salus_ingest::ingest_event_service::{plan_save, IngestServiceError};
use salus_ingest::ingest_event_repository::SourceRegistry;
use uuid::{Timestamp, Uuid};

const API_KEY: &str = "abc-123";
const SITE: &str = "test.com";
const USER_AGENT: &str = "Mozilla/5.0";

fn id_of(u: Uuid) -> EventId {
    EventId::from_u128(u.as_u128())
}

fn headers() -> ClientEventRequestHeaders {
    ClientEventRequestHeaders::new(API_KEY, SITE, USER_AGENT)
}

fn registry() -> SourceRegistry {
    let records = vec![ClickhouseSourceRecord::new(API_KEY, SITE)];
    SourceRegistry::new(records.iter().map(|r| r.to_event_source()).collect())
}

#[test]
fn test_scenario_fresh_visitor_saved() {
    // A visitor with a freshly minted identifier passes translation,
    // authorization and mapping; the row carries event type code 1.
    let body = ClientEventRequestBody {
        id: id_of(Uuid::now_v7()),
        event_type: ClientEventRequestType::Visitor,
        attrs: None,
    };
    let events = events_from_requests(&headers(), &vec![body]).unwrap();
    let rows = plan_save(&registry(), &events).unwrap();
    assert_eq!(rows.len(), 1);
    assert_eq!(rows[0].event_type.code(), 1);
    assert_eq!(rows[0].api_key.as_str(), API_KEY);
    assert_eq!(rows[0].site.as_str(), SITE);
}

#[test]
fn test_scenario_stale_visitor_rejected() {
    // Same as the fresh visitor, but the identifier embeds a time an hour
    // and a second in the past.
    let now = Uuid::now_v7();
    let (ts_now, _) = now.get_timestamp().unwrap().to_unix();
    let body = ClientEventRequestBody {
        id: id_of(Uuid::new_v7(Timestamp::from_unix_time(ts_now - 3601, 0, 0, 8))),
        event_type: ClientEventRequestType::Visitor,
        attrs: None,
    };
    let err = events_from_requests(&headers(), &vec![body]).unwrap_err();
    assert_eq!(
        err,
        ClientEventRequestError::IngestEvent(IngestEventError::TimestampOutOfRange)
    );
}

#[test]
fn test_scenario_future_visitor_rejected() {
    // Same as the fresh visitor, but the identifier embeds a time five
    // minutes and a second in the future.
    let now = Uuid::now_v7();
    let (ts_now, _) = now.get_timestamp().unwrap().to_unix();
    let body = ClientEventRequestBody {
        id: id_of(Uuid::new_v7(Timestamp::from_unix_time(ts_now + 301, 0, 0, 8))),
        event_type: ClientEventRequestType::Visitor,
        attrs: None,
    };
    let err = events_from_requests(&headers(), &vec![body]).unwrap_err();
    assert_eq!(
        err,
        ClientEventRequestError::IngestEvent(IngestEventError::TimestampOutOfRange)
    );
}

#[test]
fn test_scenario_session_with_parent_saved() {
    // A session whose body carries a valid parent attribute: the stored row
    // repeats the parent pair verbatim.
    let parent = Uuid::now_v7();
    let body = ClientEventRequestBody {
        id: id_of(Uuid::now_v7()),
        event_type: ClientEventRequestType::Session,
        attrs: Some(vec![("parent".to_owned(), parent.to_string())]),
    };
    let events = events_from_requests(&headers(), &vec![body]).unwrap();
    let rows = plan_save(&registry(), &events).unwrap();
    assert_eq!(rows.len(), 1);
    assert_eq!(rows[0].event_type.code(), 2);
    assert!(rows[0]
        .attrs
        .contains(&("parent".to_owned(), parent.to_string())));
}

#[test]
fn test_scenario_session_without_parent_rejected() {
    // A session whose body lacks the parent key fails translation; nothing
    // ever reaches the repository.
    let body = ClientEventRequestBody {
        id: id_of(Uuid::now_v7()),
        event_type: ClientEventRequestType::Session,
        attrs: Some(vec![("title".to_owned(), "Home".to_owned())]),
    };
    let err = events_from_requests(&headers(), &vec![body]).unwrap_err();
    assert_eq!(err, ClientEventRequestError::InvalidRequestBody);
}

#[test]
fn test_scenario_unregistered_source_rejected() {
    // A valid visitor from a pair the registry does not hold: the save is
    // rejected and zero rows are recorded.
    let other_headers = ClientEventRequestHeaders::new("unknown-key", SITE, USER_AGENT);
    let body = ClientEventRequestBody {
        id: id_of(Uuid::now_v7()),
        event_type: ClientEventRequestType::Visitor,
        attrs: None,
    };
    let events = events_from_requests(&other_headers, &vec![body]).unwrap();
    let recorded: Vec<ClickhouseEventRecord> = match plan_save(&registry(), &events) {
        Ok(rows) => rows,
        Err(e) => {
            assert_eq!(e, IngestServiceError::InvalidRequest);
            Vec::new()
        }
    };
    assert!(recorded.is_empty());
}
