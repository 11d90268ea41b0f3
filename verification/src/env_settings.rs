//! The environment-facing shapes of the settings model, and the resolution
//! rules that turn what was (or was not) found in the environment into
//! domain settings: compression, timeout and tracing fall back to defaults,
//! while CORS and the metrics database are required wherever they are asked
//! for.
use vstd::prelude::*;

use crate::settings::{
    CompressionSettings, ConfigurationRepositoryError, CorsSettings, MetricsDatabaseSettings,
    TimeoutSettings, TracingSettings, DEFAULT_TIMEOUT_MILLIS,
};
use crate::text::{copy_string, copy_string_vec};

verus! {

/// Compression settings as read from the environment.
#[derive(Debug, Clone, Copy, PartialEq, Eq, Structural)]
pub struct EnvCompressionSettings {
    /// Whether gzip compression was requested.
    pub gzip: Option<bool>,
    /// Whether deflate compression was requested.
    pub deflate: Option<bool>,
}

impl EnvCompressionSettings {
    /// The domain settings these environment values stand for.
    pub fn to_settings(&self) -> (r: CompressionSettings)
        ensures
            r == (CompressionSettings { gzip: self.gzip, deflate: self.deflate }),
    {
        CompressionSettings { gzip: self.gzip, deflate: self.deflate }
    }
}

/// CORS settings as read from the environment.
#[derive(Debug, Clone)]
pub struct EnvCorsSettings {
    /// Seconds a preflight response stays valid, when specified.
    pub max_age_secs: Option<u64>,
    /// The origins allowed to submit cross-origin requests.
    pub origins: Vec<String>,
}

impl EnvCorsSettings {
    /// The domain settings these environment values stand for.
    pub fn to_settings(&self) -> (r: CorsSettings)
        ensures
            r.max_age_secs == self.max_age_secs,
            r.origins@.len() == self.origins@.len(),
            forall|i: int| 0 <= i < self.origins@.len() ==> r.origins@[i]@ == self.origins@[i]@,
    {
        CorsSettings { max_age_secs: self.max_age_secs, origins: copy_string_vec(&self.origins) }
    }
}

/// Metrics database settings as read from the environment. All fields are
/// required to derive a connection.
#[derive(Debug, Clone)]
pub struct EnvMetricsDatabaseSettings {
    /// The URL of the database instance.
    pub url: String,
    /// The database to store metrics in.
    pub database: String,
    /// The user to connect as.
    pub user: String,
    /// The password to connect with.
    pub pass: String,
}

impl EnvMetricsDatabaseSettings {
    /// The domain settings these environment values stand for.
    pub fn to_settings(&self) -> (r: MetricsDatabaseSettings)
        ensures
            r.spec_url() == self.url@,
            r.spec_database() == self.database@,
            r.spec_user() == self.user@,
            r.spec_pass() == self.pass@,
    {
        MetricsDatabaseSettings::new(
            self.url.as_str(),
            self.database.as_str(),
            self.user.as_str(),
            self.pass.as_str(),
        )
    }
}

/// Timeout settings as read from the environment, in milliseconds.
#[derive(Debug, Clone, Copy, PartialEq, Eq, Structural)]
pub struct EnvTimeoutSettings {
    /// The requested timeout.
    pub millis: u64,
}

impl EnvTimeoutSettings {
    /// The domain settings these environment values stand for.
    pub fn to_settings(&self) -> (r: TimeoutSettings)
        ensures
            r.millis == self.millis,
    {
        TimeoutSettings { millis: self.millis }
    }
}

/// Tracing settings as read from the environment.
#[derive(Debug, Clone)]
pub struct EnvTracingSettings {
    /// The subscriber filter directive.
    pub directive: String,
}

impl EnvTracingSettings {
    /// The domain settings these environment values stand for.
    pub fn to_settings(&self) -> (r: TracingSettings)
        ensures
            r.directive@ == self.directive@,
    {
        TracingSettings { directive: copy_string(&self.directive) }
    }
}

/// The HTTP layer settings as read from the environment.
#[derive(Debug, Clone)]
pub struct EnvLayerSettings {
    /// Compression settings, when present.
    pub compression: Option<EnvCompressionSettings>,
    /// CORS settings, when present.
    pub cors: Option<EnvCorsSettings>,
    /// Timeout settings, when present.
    pub timeout: Option<EnvTimeoutSettings>,
}

/// Resolve compression settings: whatever the environment lacks falls back
/// to the default of both encodings enabled. This never fails.
pub fn try_compression_settings(layer: &Option<EnvLayerSettings>) -> (r: Result<
    CompressionSettings,
    ConfigurationRepositoryError,
>)
    ensures
        r == Ok::<CompressionSettings, ConfigurationRepositoryError>(
            match layer {
                Some(l) => match l.compression {
                    Some(s) => CompressionSettings { gzip: s.gzip, deflate: s.deflate },
                    None => CompressionSettings { gzip: Some(true), deflate: Some(true) },
                },
                None => CompressionSettings { gzip: Some(true), deflate: Some(true) },
            },
        ),
{
    match layer {
        None => Ok(CompressionSettings { gzip: Some(true), deflate: Some(true) }),
        Some(layer_settings) => match &layer_settings.compression {
            None => Ok(CompressionSettings { gzip: Some(true), deflate: Some(true) }),
            Some(settings) => Ok(settings.to_settings()),
        },
    }
}

/// Resolve CORS settings: they are required, so an environment without them
/// reports them missing.
pub fn try_cors_settings(layer: &Option<EnvLayerSettings>) -> (r: Result<
    CorsSettings,
    ConfigurationRepositoryError,
>)
    ensures
        r is Err <==> (layer is None || layer->Some_0.cors is None),
        r matches Err(e) ==> e == ConfigurationRepositoryError::Missing,
        r matches Ok(s) ==> ({
            let cors = layer->Some_0.cors->Some_0;
            s.max_age_secs == cors.max_age_secs && s.origins@.len() == cors.origins@.len() && (
            forall|i: int| 0 <= i < cors.origins@.len() ==> s.origins@[i]@ == cors.origins@[i]@)
        }),
{
    match layer {
        None => Err(ConfigurationRepositoryError::Missing),
        Some(layer_settings) => match &layer_settings.cors {
            None => Err(ConfigurationRepositoryError::Missing),
            Some(cors_settings) => Ok(cors_settings.to_settings()),
        },
    }
}

/// Resolve timeout settings: whatever the environment lacks falls back to
/// the default timeout. This never fails.
pub fn try_timeout_settings(layer: &Option<EnvLayerSettings>) -> (r: Result<
    TimeoutSettings,
    ConfigurationRepositoryError,
>)
    ensures
        r == Ok::<TimeoutSettings, ConfigurationRepositoryError>(
            match layer {
                Some(l) => match l.timeout {
                    Some(s) => TimeoutSettings { millis: s.millis },
                    None => TimeoutSettings { millis: DEFAULT_TIMEOUT_MILLIS },
                },
                None => TimeoutSettings { millis: DEFAULT_TIMEOUT_MILLIS },
            },
        ),
{
    match layer {
        None => Ok(TimeoutSettings { millis: DEFAULT_TIMEOUT_MILLIS }),
        Some(layer_settings) => match &layer_settings.timeout {
            None => Ok(TimeoutSettings { millis: DEFAULT_TIMEOUT_MILLIS }),
            Some(settings) => Ok(settings.to_settings()),
        },
    }
}

/// Resolve metrics database settings: they are required.
pub fn try_metrics_db_settings(metricsdb: &Option<EnvMetricsDatabaseSettings>) -> (r: Result<
    MetricsDatabaseSettings,
    ConfigurationRepositoryError,
>)
    ensures
        r is Err <==> metricsdb is None,
        r matches Err(e) ==> e == ConfigurationRepositoryError::Missing,
        r matches Ok(s) ==> ({
            let env = metricsdb->Some_0;
            s.spec_url() == env.url@ && s.spec_database() == env.database@ && s.spec_user()
                == env.user@ && s.spec_pass() == env.pass@
        }),
{
    match metricsdb {
        None => Err(ConfigurationRepositoryError::Missing),
        Some(settings) => Ok(settings.to_settings()),
    }
}

/// Resolve tracing settings: an environment without them falls back to the
/// default directive. This never fails.
pub fn try_tracing_settings(tracing: &Option<EnvTracingSettings>) -> (r: Result<
    TracingSettings,
    ConfigurationRepositoryError,
>)
    ensures
        r is Ok,
        r matches Ok(s) ==> s.directive@ == match tracing {
            Some(t) => t.directive@,
            None => "ERROR"@,
        },
{
    match tracing {
        None => Ok(TracingSettings::default()),
        Some(settings) => Ok(settings.to_settings()),
    }
}

} // verus!
