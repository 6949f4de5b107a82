//! Installing the logger: once for the whole process.

use vstd::prelude::*;
use tracing_subscriber::util::TryInitError;
use crate::backend::{parse_filter, try_register};
use crate::config::LoggerConfig;
use crate::filter::{filter_expression, lemma_filter_expression_safe, safe_to_parse};

verus! {

/// Why the logger was not installed.
#[derive(Debug, Clone, Copy, PartialEq, Eq, Structural)]
pub enum InitError {
    /// The process has a logger already, installed by this library or by
    /// anyone else. This does not change while the process lives.
    AlreadyInitialized,
}

impl InitError {
    /// The error in words, for a log line or a report.
    pub fn message(&self) -> (text: &'static str)
        ensures
            text@ == "the process-wide logger is already initialized"@,
    {
        match self {
            InitError::AlreadyInitialized => "the process-wide logger is already initialized",
        }
    }
}

/// What the caller is told for an outcome of the registration: success for
/// success, and `AlreadyInitialized` for every failure that the backend
/// reports.
pub fn registration_result(outcome: Result<(), TryInitError>) -> (result: Result<(), InitError>)
    ensures
        outcome is Ok <==> result is Ok,
        outcome is Err ==> result == Err::<(), InitError>(InitError::AlreadyInitialized),
{
    match outcome {
        Ok(()) => Ok(()),
        Err(_) => Err(InitError::AlreadyInitialized),
    }
}

/// Installs the process-wide logger for a service. It hands the backend
/// the filter expression of the service name and the configured level, and
/// a line formatter with the configured display toggles.
///
/// The first registration in a process wins, and it stays for as long as
/// the process lives. Whether this call is the first is for the backend to
/// say, so the contract holds for either answer: the call succeeds, or it
/// reports `AlreadyInitialized`.
///
/// The service name stands in the filter expression as it is. It must be a
/// text that the backend's parser can take, which `is_safe_to_parse` tests.
pub fn init_logger(service_name: &str, config: &LoggerConfig) -> (result: Result<(), InitError>)
    requires
        safe_to_parse(service_name@),
    ensures
        result is Ok || result == Err::<(), InitError>(InitError::AlreadyInitialized),
{
    let expression = filter_expression(service_name, config.level);
    proof {
        lemma_filter_expression_safe(service_name@, config.level);
    }
    let filter = parse_filter(expression.as_str());
    let toggles = config.formatter_toggles();
    registration_result(try_register(filter, toggles))
}

/// Installs the process-wide logger for a service with the default
/// configuration: as `init_logger` does with `LoggerConfig::default()`.
pub fn init_default_logger(service_name: &str) -> (result: Result<(), InitError>)
    requires
        safe_to_parse(service_name@),
    ensures
        result is Ok || result == Err::<(), InitError>(InitError::AlreadyInitialized),
{
    init_logger(service_name, &LoggerConfig::default())
}

} // verus!
