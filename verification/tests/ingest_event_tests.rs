use salus_ingest::event_id::EventId;
use salus_ingest::ingest_event::{
    ApiKey, ClickEvent, IngestEventCore, IngestEventError, SectionEvent, SessionEvent, Site,
    VisitorEvent,
};
use uuid::{Timestamp, Uuid};

const UUID_V4_STR: &str = "4e2abe52-5e86-4023-9f8b-34eba8d2cc59";
const API_KEY_STR: &str = "123_456_789";
const SITE: &str = "test.com";

fn id_of(u: Uuid) -> EventId {
    EventId::from_u128(u.as_u128())
}

#[test]
fn test_core_event() {
    let uuid_now = id_of(Uuid::now_v7());
    let valid_core = IngestEventCore::try_new(ApiKey::new(API_KEY_STR), Site::new(SITE), uuid_now);
    if valid_core.is_err() {
        panic!("Expected a valid IngestEventCore to be created");
    }

    let invalid_api_key_err =
        IngestEventCore::try_new(ApiKey::new(" "), Site::new(SITE), uuid_now).unwrap_err();
    assert_eq!(
        invalid_api_key_err,
        IngestEventError::ApiKey,
        "Expected ApiKey error"
    );

    let invalid_site_err =
        IngestEventCore::try_new(ApiKey::new(API_KEY_STR), Site::new(" "), uuid_now).unwrap_err();
    assert_eq!(invalid_site_err, IngestEventError::Site, "Expected Site error");
}

#[test]
fn test_try_new_events() {
    let uuid_now = Uuid::now_v7();
    let (ts_now, _) = uuid_now.get_timestamp().unwrap().to_unix();
    let test_core =
        IngestEventCore::try_new(ApiKey::new(API_KEY_STR), Site::new(SITE), id_of(uuid_now));
    let Ok(_) = test_core else {
        panic!("Expected valid IngestEventCore");
    };

    let invalid_ingest_uuid_type = IngestEventCore::try_new(
        ApiKey::new(API_KEY_STR),
        Site::new(SITE),
        id_of(Uuid::parse_str(UUID_V4_STR).unwrap()),
    );
    assert_eq!(
        invalid_ingest_uuid_type.unwrap_err(),
        IngestEventError::UuidVersion
    );

    let invalid_ingest_event_early = IngestEventCore::try_new(
        ApiKey::new(API_KEY_STR),
        Site::new(SITE),
        id_of(Uuid::new_v7(Timestamp::from_unix_time(ts_now - 3601, 0, 0, 8))),
    );
    assert_eq!(
        invalid_ingest_event_early.unwrap_err(),
        IngestEventError::TimestampOutOfRange
    );

    let invalid_ingest_event_late = IngestEventCore::try_new(
        ApiKey::new(API_KEY_STR),
        Site::new(SITE),
        id_of(Uuid::new_v7(Timestamp::from_unix_time(ts_now + 301, 0, 0, 8))),
    );
    assert_eq!(
        invalid_ingest_event_late.unwrap_err(),
        IngestEventError::TimestampOutOfRange
    );

    let Ok(_) = VisitorEvent::try_new(
        ApiKey::new(API_KEY_STR),
        Site::new(SITE),
        id_of(Uuid::now_v7()),
    ) else {
        panic!("Expected valid VisitorEvent");
    };

    let Ok(_) = SessionEvent::try_new(
        ApiKey::new(API_KEY_STR),
        Site::new(SITE),
        id_of(Uuid::now_v7()),
        id_of(Uuid::now_v7()),
    ) else {
        panic!("Expected valid SessionEvent");
    };

    let Ok(_) = SectionEvent::try_new(
        ApiKey::new(API_KEY_STR),
        Site::new(SITE),
        id_of(Uuid::now_v7()),
        id_of(Uuid::now_v7()),
        Some("/path/to/section.ext?foo=bar&bar=foo#last".to_owned()),
        Some("Section Title".to_owned()),
    ) else {
        panic!("Expected valid SectionEvent");
    };

    let Ok(_) = ClickEvent::try_new(
        ApiKey::new(API_KEY_STR),
        Site::new(SITE),
        id_of(Uuid::now_v7()),
        id_of(Uuid::now_v7()),
    ) else {
        panic!("Expected valid ClickEvent");
    };
}

#[test]
fn test_api_key_checked_before_site() {
    // Both the api key and the site are empty after trimming: the api key
    // error is the one reported.
    let err = IngestEventCore::try_new(ApiKey::new("  "), Site::new(""), id_of(Uuid::now_v7()))
        .unwrap_err();
    assert_eq!(err, IngestEventError::ApiKey);
}

#[test]
fn test_api_key_and_site_trimmed() {
    let key = ApiKey::new("  abc-123  ");
    assert_eq!(key.value().as_str(), "abc-123");
    let site = Site::new("\ttest.com \n");
    assert_eq!(site.value().as_str(), "test.com");
}

#[test]
fn test_uuid_timestamp_conversion_error() {
    // A version 7 identifier whose embedded millisecond timestamp lies past
    // the last representable calendar second (9999-12-31T23:59:59Z).
    let millis: u128 = 253_402_300_800_000;
    let bits: u128 = (millis << 80) | (0x7u128 << 76);
    let err = IngestEventCore::try_new(
        ApiKey::new(API_KEY_STR),
        Site::new(SITE),
        EventId::from_u128(bits),
    )
    .unwrap_err();
    assert_eq!(err, IngestEventError::UuidTimestampConversion);
}

#[test]
fn test_event_source_of_event() {
    let visitor = VisitorEvent::try_new(
        ApiKey::new(API_KEY_STR),
        Site::new(SITE),
        id_of(Uuid::now_v7()),
    )
    .unwrap();
    let event = salus_ingest::ingest_event::IngestEvent::Visitor(visitor);
    let source = event.source();
    assert_eq!(source.api_key().value().as_str(), API_KEY_STR);
    assert_eq!(source.site().value().as_str(), SITE);
}
