use salus_ingest::clickhouse_event_record::{
    ClickhouseEventRecord, ClickhouseEventRecordType, EventRecordType,
};
use salus_ingest::event_id::EventId;
use salus_ingest::ingest_event::{
    ApiKey, ClickEvent, IngestEvent, SectionEvent, SessionEvent, Site, VisitorEvent,
};
use uuid::Uuid;

fn id_of(u: Uuid) -> EventId {
    EventId::from_u128(u.as_u128())
}

/// This is very important in order to keep the mapping in ClickHouse in
/// line with this library
#[test]
fn test_event_record_type_discriminant() {
    let visitor_discriminant = EventRecordType::Visitor.code() as u32;
    assert_eq!(
        visitor_discriminant, 1,
        "EventRecordType::Visitor discriminant does not match expected value"
    );

    let session_discriminant = EventRecordType::Session.code() as u32;
    assert_eq!(
        session_discriminant, 2,
        "EventRecordType::Session discriminant does not match expected value"
    );

    let section_discriminant = EventRecordType::Section.code() as u32;
    assert_eq!(
        section_discriminant, 3,
        "EventRecordType::Section discriminant does not match expected value"
    );

    let click_discriminant = EventRecordType::Click.code() as u32;
    assert_eq!(
        click_discriminant, 4,
        "EventRecordType::Click discriminant does not match expected value"
    );
}

/// This is very important in order to keep the mapping in ClickHouse in
/// line with this library
#[test]
fn clickhouse_event_record_test_event_record_type_discriminant() {
    let visitor_discriminant = ClickhouseEventRecordType::Visitor.code() as u32;
    assert_eq!(
        visitor_discriminant, 1,
        "ClickhouseEventRecordType::Visitor discriminant does not match expected value"
    );

    let session_discriminant = ClickhouseEventRecordType::Session.code() as u32;
    assert_eq!(
        session_discriminant, 2,
        "ClickhouseEventRecordType::Session discriminant does not match expected value"
    );

    let section_discriminant = ClickhouseEventRecordType::Section.code() as u32;
    assert_eq!(
        section_discriminant, 3,
        "ClickhouseEventRecordType::Section discriminant does not match expected value"
    );

    let click_discriminant = ClickhouseEventRecordType::Click.code() as u32;
    assert_eq!(
        click_discriminant, 4,
        "ClickhouseEventRecordType::Click discriminant does not match expected value"
    );
}

#[test]
fn test_try_from_ingest_event() {
    let uuid_visitor = Uuid::now_v7();
    let Ok(valid_visitor_event) = VisitorEvent::try_new(
        ApiKey::new("abc-124"),
        Site::new("http://salusmetrics.com"),
        id_of(uuid_visitor),
    ) else {
        panic!("Expected valid VisitorEvent to be created");
    };
    let visitor_record =
        ClickhouseEventRecord::from_event(&IngestEvent::Visitor(valid_visitor_event));
    assert_eq!(visitor_record.event_type, ClickhouseEventRecordType::Visitor);
    assert!(visitor_record.attrs.is_empty());

    let uuid_session = Uuid::now_v7();
    let Ok(valid_session_event) = SessionEvent::try_new(
        ApiKey::new("abc-124"),
        Site::new("http://salusmetrics.com"),
        id_of(uuid_session),
        id_of(uuid_visitor),
    ) else {
        panic!("Expected valid SessionEvent to be created");
    };
    let session_record =
        ClickhouseEventRecord::from_event(&IngestEvent::Session(valid_session_event));
    assert_eq!(session_record.event_type, ClickhouseEventRecordType::Session);
    assert_eq!(
        session_record.attrs,
        vec![("parent".to_owned(), uuid_visitor.to_string())]
    );

    let uuid_section = Uuid::now_v7();
    let Ok(valid_section_event) = SectionEvent::try_new(
        ApiKey::new("abc-124"),
        Site::new("http://salusmetrics.com"),
        id_of(uuid_section),
        id_of(uuid_session),
        None,
        None,
    ) else {
        panic!("Expected valid SectionEvent to be created");
    };
    let section_record =
        ClickhouseEventRecord::from_event(&IngestEvent::Section(valid_section_event));
    assert_eq!(section_record.event_type, ClickhouseEventRecordType::Section);

    let uuid_click = Uuid::now_v7();
    let Ok(valid_click_event) = ClickEvent::try_new(
        ApiKey::new("abc-124"),
        Site::new("http://salusmetrics.com"),
        id_of(uuid_click),
        id_of(uuid_section),
    ) else {
        panic!("Expected valid ClickEvent to be created");
    };
    let click_record = ClickhouseEventRecord::from_event(&IngestEvent::Click(valid_click_event));
    assert_eq!(click_record.event_type, ClickhouseEventRecordType::Click);
    assert_eq!(click_record.id, id_of(uuid_click));
}

#[test]
fn test_visitor_row_round_trip() {
    // A visitor constructed from identifier I maps to a row with id I,
    // event type code 1 and the timestamp derived from I.
    let uuid = Uuid::now_v7();
    let (secs, _) = uuid.get_timestamp().unwrap().to_unix();
    let visitor = VisitorEvent::try_new(
        ApiKey::new("abc-123"),
        Site::new("test.com"),
        id_of(uuid),
    )
    .unwrap();
    let row = ClickhouseEventRecord::from_event(&IngestEvent::Visitor(visitor));
    assert_eq!(row.id, id_of(uuid));
    assert_eq!(row.event_type.code(), 1);
    assert_eq!(row.ts.unix_seconds, secs as i64);
    assert_eq!(row.api_key.as_str(), "abc-123");
    assert_eq!(row.site.as_str(), "test.com");
}

#[test]
fn test_section_row_attrs_order() {
    let parent = Uuid::now_v7();
    let section = SectionEvent::try_new(
        ApiKey::new("abc-124"),
        Site::new("salusmetrics.com"),
        id_of(Uuid::now_v7()),
        id_of(parent),
        Some("/path".to_owned()),
        Some("Title".to_owned()),
    )
    .unwrap();
    let row = ClickhouseEventRecord::from_event(&IngestEvent::Section(section));
    assert_eq!(
        row.attrs,
        vec![
            ("parent".to_owned(), parent.to_string()),
            ("location".to_owned(), "/path".to_owned()),
            ("title".to_owned(), "Title".to_owned()),
        ]
    );
}
