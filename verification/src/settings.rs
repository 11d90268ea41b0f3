//! The configuration settings model shared by the metrics applications:
//! plain validated carriers for compression, CORS, timeout, tracing and
//! metrics-database parameters, and the configuration error taxonomy. The
//! construction of HTTP middleware layers, listeners and database clients
//! out of these settings is collaborator work outside this library.
use vstd::prelude::*;

use crate::text::copy_str;

verus! {

/// Default request timeout in milliseconds.
pub const DEFAULT_TIMEOUT_MILLIS: u64 = 30000;

/// Error cases met while configuring an application instance, at startup.
#[derive(Clone, Debug, PartialEq, Eq, Structural)]
pub enum ConfError {
    /// The CORS layer could not be set up from the configuration.
    Cors,
    /// Settings could not be derived from the environment.
    Env,
    /// Layer settings could not be determined.
    Layer,
    /// The listen address or port could not be determined.
    Listener,
    /// The metrics database could not be initialized from settings.
    MetricsDb,
    /// Tracing could not be initialized from settings.
    Tracing,
}

/// Domain errors of the configuration model.
#[derive(Clone, Debug, PartialEq, Eq, Structural)]
pub enum ConfigurationError {
    /// The configuration specified for the requested type is not valid.
    Invalid,
    /// Some part of the configuration could not be parsed.
    Parse,
}

/// Errors a configuration repository can report.
#[derive(Clone, Debug, PartialEq, Eq, Structural)]
pub enum ConfigurationRepositoryError {
    /// No configuration was found for the requested setting.
    Missing,
    /// A domain model error occurred underneath, preserved as the cause.
    Model(ConfigurationError),
    /// The underlying repository failed.
    Repository,
}

/// Errors surfaced by a configuration service.
#[derive(Clone, Debug, PartialEq, Eq, Structural)]
pub enum ConfigurationServiceError {
    /// The configuration was present but not valid for the requested type.
    Invalid,
    /// No configuration was found for the requested type.
    Missing,
    /// The repository underneath failed.
    Repository,
}

/// How configuration model errors surface at the service level.
pub fn map_configuration_err_to_service_err(conf_err: ConfigurationError) -> (r:
    ConfigurationServiceError)
    ensures
        r == ConfigurationServiceError::Invalid,
{
    match conf_err {
        ConfigurationError::Invalid => ConfigurationServiceError::Invalid,
        ConfigurationError::Parse => ConfigurationServiceError::Invalid,
    }
}

/// How repository errors surface at the service level.
pub fn map_repo_err_to_service_err(repo_err: ConfigurationRepositoryError) -> (r:
    ConfigurationServiceError)
    ensures
        r == match repo_err {
            ConfigurationRepositoryError::Missing => ConfigurationServiceError::Missing,
            ConfigurationRepositoryError::Model(_) => ConfigurationServiceError::Invalid,
            ConfigurationRepositoryError::Repository => ConfigurationServiceError::Repository,
        },
{
    match repo_err {
        ConfigurationRepositoryError::Missing => ConfigurationServiceError::Missing,
        ConfigurationRepositoryError::Model(_) => ConfigurationServiceError::Invalid,
        ConfigurationRepositoryError::Repository => ConfigurationServiceError::Repository,
    }
}

/// Settings for the response compression layer: which encodings to enable.
/// An unset value means the default of enabling the encoding.
#[derive(Debug, Clone, Copy, PartialEq, Eq, Structural)]
pub struct CompressionSettings {
    /// Whether gzip compression is enabled.
    pub gzip: Option<bool>,
    /// Whether deflate compression is enabled.
    pub deflate: Option<bool>,
}

impl Default for CompressionSettings {
    /// Both encodings enabled.
    fn default() -> (r: Self)
        ensures
            r == (CompressionSettings { gzip: Some(true), deflate: Some(true) }),
    {
        CompressionSettings { gzip: Some(true), deflate: Some(true) }
    }
}

/// Settings for cross-origin resource sharing. The origin list must not be
/// empty for a CORS layer to be built from it; the optional max age governs
/// how long a preflight answer may be reused.
#[derive(Debug, Clone)]
pub struct CorsSettings {
    /// Seconds a preflight response stays valid; none means every request
    /// performs its own handshake.
    pub max_age_secs: Option<u64>,
    /// The origins allowed to submit cross-origin requests.
    pub origins: Vec<String>,
}

impl CorsSettings {
    /// Build CORS settings from a non-empty origin list.
    pub fn new(origins: Vec<String>, max_age_secs: Option<u64>) -> (r: Self)
        requires
            origins@.len() > 0,
        ensures
            r.origins == origins,
            r.max_age_secs == max_age_secs,
    {
        CorsSettings { max_age_secs, origins }
    }
}

/// Settings for the request timeout layer, in milliseconds.
#[derive(Debug, Clone, Copy, PartialEq, Eq, Structural)]
pub struct TimeoutSettings {
    /// How long the server waits before answering with a timeout.
    pub millis: u64,
}

impl TimeoutSettings {
    /// Build timeout settings from a millisecond value.
    pub fn new(millis: u64) -> (r: Self)
        ensures
            r.millis == millis,
    {
        TimeoutSettings { millis }
    }
}

impl Default for TimeoutSettings {
    /// A timeout of thirty seconds.
    fn default() -> (r: Self)
        ensures
            r.millis == DEFAULT_TIMEOUT_MILLIS,
    {
        TimeoutSettings { millis: DEFAULT_TIMEOUT_MILLIS }
    }
}

/// Application-wide tracing settings: the filter directive handed to the
/// tracing subscriber.
#[derive(Debug, Clone)]
pub struct TracingSettings {
    /// The subscriber filter directive.
    pub directive: String,
}

impl TracingSettings {
    /// Build tracing settings from a directive string.
    pub fn new(directive: &str) -> (r: Self)
        ensures
            r.directive@ == directive@,
    {
        TracingSettings { directive: copy_str(directive) }
    }
}

impl Default for TracingSettings {
    /// Filter to errors and above only.
    fn default() -> (r: Self)
        ensures
            r.directive@ == "ERROR"@,
    {
        TracingSettings { directive: copy_str("ERROR") }
    }
}

/// The parameters required to connect to the metrics database instance.
#[derive(Debug, Clone)]
pub struct MetricsDatabaseSettings {
    url: String,
    database: String,
    user: String,
    pass: String,
}

impl MetricsDatabaseSettings {
    /// Build database settings from their four values.
    pub fn new(url: &str, database: &str, user: &str, pass: &str) -> (r: Self)
        ensures
            r.spec_url() == url@,
            r.spec_database() == database@,
            r.spec_user() == user@,
            r.spec_pass() == pass@,
    {
        MetricsDatabaseSettings {
            url: copy_str(url),
            database: copy_str(database),
            user: copy_str(user),
            pass: copy_str(pass),
        }
    }

    /// The database URL.
    pub closed spec fn spec_url(&self) -> Seq<char> {
        self.url@
    }

    /// The database name.
    pub closed spec fn spec_database(&self) -> Seq<char> {
        self.database@
    }

    /// The database user.
    pub closed spec fn spec_user(&self) -> Seq<char> {
        self.user@
    }

    /// The database password.
    pub closed spec fn spec_pass(&self) -> Seq<char> {
        self.pass@
    }

    /// The URL to connect to.
    pub fn url(&self) -> (r: &str)
        ensures
            r@ == self.spec_url(),
    {
        self.url.as_str()
    }

    /// The database to store metrics in.
    pub fn database(&self) -> (r: &str)
        ensures
            r@ == self.spec_database(),
    {
        self.database.as_str()
    }

    /// The user to connect as.
    pub fn user(&self) -> (r: &str)
        ensures
            r@ == self.spec_user(),
    {
        self.user.as_str()
    }

    /// The password to connect with.
    pub fn pass(&self) -> (r: &str)
        ensures
            r@ == self.spec_pass(),
    {
        self.pass.as_str()
    }
}

/// The HTTP layer settings of an application gathered into one place.
#[derive(Debug, Clone)]
pub struct LayerSettings {
    /// Compression settings, when any were specified.
    pub compression: Option<CompressionSettings>,
    /// CORS settings, when any were specified.
    pub cors: Option<CorsSettings>,
    /// Timeout settings, when any were specified.
    pub timeout: Option<TimeoutSettings>,
}

impl LayerSettings {
    /// Gather the three optional layer settings.
    pub fn new(
        compression_settings: Option<CompressionSettings>,
        cors_settings: Option<CorsSettings>,
        timeout_settings: Option<TimeoutSettings>,
    ) -> (r: Self)
        ensures
            r.compression == compression_settings,
            r.cors == cors_settings,
            r.timeout == timeout_settings,
    {
        LayerSettings {
            compression: compression_settings,
            cors: cors_settings,
            timeout: timeout_settings,
        }
    }
}

impl Default for LayerSettings {
    /// Default compression and timeout, and no CORS.
    fn default() -> (r: Self)
        ensures
            r.compression == Some(CompressionSettings { gzip: Some(true), deflate: Some(true) }),
            r.cors is None,
            r.timeout == Some(TimeoutSettings { millis: DEFAULT_TIMEOUT_MILLIS }),
    {
        LayerSettings {
            compression: Some(CompressionSettings { gzip: Some(true), deflate: Some(true) }),
            cors: None,
            timeout: Some(TimeoutSettings { millis: DEFAULT_TIMEOUT_MILLIS }),
        }
    }
}

} // verus!
