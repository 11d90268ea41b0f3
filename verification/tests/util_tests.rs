use salus_ingest::event_id::{
    is_ts_within_ingest_range, is_ts_within_ingest_range_at, try_uuid_datetime, EventId,
    EventTimestamp,
};
use salus_ingest::ingest_event::IngestEventError;
use uuid::Uuid;

const UUID_V4_STR: &str = "4e2abe52-5e86-4023-9f8b-34eba8d2cc59";

#[test]
fn test_try_uuid_datetime() {
    // A valid case with a time-ordered identifier minted now.
    let uuid = Uuid::now_v7();
    let odt = try_uuid_datetime(EventId::from_u128(uuid.as_u128()));
    assert!(odt.is_ok());
    let (secs, _) = uuid.get_timestamp().unwrap().to_unix();
    assert_eq!(odt.unwrap().unix_seconds, secs as i64);

    // An identifier of the wrong (random) kind.
    let uuid = Uuid::parse_str(UUID_V4_STR).unwrap();
    assert_eq!(
        try_uuid_datetime(EventId::from_u128(uuid.as_u128())).unwrap_err(),
        IngestEventError::UuidVersion
    );
}

#[test]
fn test_is_ts_within_ingest_range() {
    let now = time::OffsetDateTime::now_utc().unix_timestamp();
    let valid_now = EventTimestamp { unix_seconds: now };
    let valid_early = EventTimestamp { unix_seconds: now - 30 * 60 };
    let valid_late = EventTimestamp { unix_seconds: now + 2 * 60 };
    let invalid_early = EventTimestamp { unix_seconds: now - 70 * 60 };
    let invalid_late = EventTimestamp { unix_seconds: now + 20 * 60 };

    assert!(
        is_ts_within_ingest_range(valid_now),
        "Current ts should be valid ingest OffsetDateTime"
    );
    assert!(
        is_ts_within_ingest_range(valid_early),
        "30 minutes prior should be valid ingest OffsetDateTime"
    );
    assert!(
        is_ts_within_ingest_range(valid_late),
        "2 minutes after should be vaid ingest OffsetDateTime"
    );
    assert!(
        !is_ts_within_ingest_range(invalid_early),
        "70 minutes prior should be invalid ingest OffsetDateTime"
    );
    assert!(
        !is_ts_within_ingest_range(invalid_late),
        "20 minutes prior should be invalid ingest OffsetDateTime"
    );
}

#[test]
fn test_ingest_range_boundaries_excluded() {
    let now: i64 = 1_700_000_000;
    // Both boundaries are strictly excluded.
    assert!(!is_ts_within_ingest_range_at(
        EventTimestamp { unix_seconds: now - 3600 },
        now
    ));
    assert!(!is_ts_within_ingest_range_at(
        EventTimestamp { unix_seconds: now + 300 },
        now
    ));
    assert!(is_ts_within_ingest_range_at(
        EventTimestamp { unix_seconds: now - 3599 },
        now
    ));
    assert!(is_ts_within_ingest_range_at(
        EventTimestamp { unix_seconds: now + 299 },
        now
    ));
    assert!(is_ts_within_ingest_range_at(
        EventTimestamp { unix_seconds: now },
        now
    ));
}

#[test]
fn test_hyphenated_rendering_matches_canonical_form() {
    // The verified formatter must agree with the canonical rendering of a
    // time-ordered identifier.
    let uuid = Uuid::now_v7();
    let id = EventId::from_u128(uuid.as_u128());
    assert_eq!(id.to_hyphenated_string(), uuid.to_string());

    let uuid = Uuid::parse_str("550e8400-e29b-41d4-a716-446655440000").unwrap();
    let id = EventId::from_u128(uuid.as_u128());
    assert_eq!(id.to_hyphenated_string(), "550e8400-e29b-41d4-a716-446655440000");
}

#[test]
fn test_event_id_version() {
    let v7 = EventId::from_u128(Uuid::now_v7().as_u128());
    assert_eq!(v7.version(), 7);
    let v4 = EventId::from_u128(Uuid::parse_str(UUID_V4_STR).unwrap().as_u128());
    assert_eq!(v4.version(), 4);
}
