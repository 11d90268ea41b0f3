//! Analytics ingestion domain library: a typed event model validated from
//! identifier-derived timestamps, authorization of events against a loaded
//! set of permitted sources, and all-or-nothing mapping of event batches to
//! storage rows, together with the configuration settings model around it.
pub mod clickhouse_event_record;
pub mod clickhouse_ingest_repository;
pub mod clickhouse_source_record;
pub mod client_event_action_summary;
pub mod client_event_request;
pub mod env_settings;
pub mod event_id;
pub mod ingest_action_summary;
pub mod ingest_event;
pub mod ingest_event_repository;
pub mod ingest_event_service;
pub mod settings;
pub mod text;
