//! The service's configuration, as read from the environment at startup.
//! Reading the environment itself happens outside the library; here live
//! the shape of the configuration, its defaults, and the interpretation of
//! the configured log level.

use crate::text::{eq_ignore_ascii_case, str_eq, str_eq_ignore_ascii_case};
use vstd::prelude::*;

verus! {

/// Configuration of the service.
pub struct Configuration {
    pub port: u16,
    pub log_level: String,
    /// Internal flag to disable logging; cannot be set by the user.
    pub is_test: bool,
    pub telemetry_enabled: Option<bool>,
    pub telemetry_grpc_url: Option<String>,
    pub attestation_cache_url: String,
    pub project_registry_cache_url: String,
    pub project_registry_url: String,
    pub project_registry_auth_token: String,
}

/// A logging verbosity level.
#[derive(Clone, Copy, Debug, PartialEq, Eq, Structural)]
pub enum LogLevel {
    Trace,
    Debug,
    Info,
    Warn,
    Error,
}

/// Whether `s` names a log level: one of the five level names in any
/// ASCII case, or the digits `1` (most severe) to `5`.
pub open spec fn spec_valid_log_level(s: Seq<char>) -> bool {
    ||| eq_ignore_ascii_case(s, "TRACE"@)
    ||| eq_ignore_ascii_case(s, "DEBUG"@)
    ||| eq_ignore_ascii_case(s, "INFO"@)
    ||| eq_ignore_ascii_case(s, "WARN"@)
    ||| eq_ignore_ascii_case(s, "ERROR"@)
    ||| s == "1"@
    ||| s == "2"@
    ||| s == "3"@
    ||| s == "4"@
    ||| s == "5"@
}

/// The level a valid name denotes.
pub open spec fn spec_log_level(s: Seq<char>) -> LogLevel {
    if eq_ignore_ascii_case(s, "TRACE"@) || s == "5"@ {
        LogLevel::Trace
    } else if eq_ignore_ascii_case(s, "DEBUG"@) || s == "4"@ {
        LogLevel::Debug
    } else if eq_ignore_ascii_case(s, "INFO"@) || s == "3"@ {
        LogLevel::Info
    } else if eq_ignore_ascii_case(s, "WARN"@) || s == "2"@ {
        LogLevel::Warn
    } else {
        LogLevel::Error
    }
}

impl Configuration {
    /// The configured log level. The configuration must name a level.
    pub fn log_level(&self) -> (r: LogLevel)
        requires
            spec_valid_log_level(self.log_level@),
        ensures
            r == spec_log_level(self.log_level@),
    {
        let s = self.log_level.as_str();
        if str_eq_ignore_ascii_case(s, "TRACE") || str_eq(s, "5") {
            LogLevel::Trace
        } else if str_eq_ignore_ascii_case(s, "DEBUG") || str_eq(s, "4") {
            LogLevel::Debug
        } else if str_eq_ignore_ascii_case(s, "INFO") || str_eq(s, "3") {
            LogLevel::Info
        } else if str_eq_ignore_ascii_case(s, "WARN") || str_eq(s, "2") {
            LogLevel::Warn
        } else {
            LogLevel::Error
        }
    }

    /// The configured log level, or nothing when the configuration names
    /// no level.
    pub fn checked_log_level(&self) -> (r: Option<LogLevel>)
        ensures
            spec_valid_log_level(self.log_level@) ==> r == Some(spec_log_level(self.log_level@)),
            !spec_valid_log_level(self.log_level@) ==> r is None,
    {
        let s = self.log_level.as_str();
        let named = str_eq_ignore_ascii_case(s, "TRACE") || str_eq_ignore_ascii_case(s, "DEBUG")
            || str_eq_ignore_ascii_case(s, "INFO") || str_eq_ignore_ascii_case(s, "WARN")
            || str_eq_ignore_ascii_case(s, "ERROR");
        let numbered = str_eq(s, "1") || str_eq(s, "2") || str_eq(s, "3") || str_eq(s, "4")
            || str_eq(s, "5");
        if named || numbered {
            Some(self.log_level())
        } else {
            None
        }
    }
}

/// The port served by default.
pub fn default_port() -> (r: u16)
    ensures
        r == 3008,
{
    3008
}

/// The port the metrics endpoint uses by default.
pub fn default_prometheus_port() -> (r: u16)
    ensures
        r == 4000,
{
    4000
}

/// The log level used when none is configured.
pub fn default_log_level() -> (r: String)
    ensures
        r@ == "WARN"@,
{
    "WARN".to_owned()
}

/// Whether the service runs as a test by default.
pub fn default_is_test() -> (r: bool)
    ensures
        r == false,
{
    false
}

} // verus!
