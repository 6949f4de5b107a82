//! The calls into `tracing_subscriber`. Nothing in this file is proved:
//! each item states what the library takes on trust from the backend.

use vstd::prelude::*;
use tracing_subscriber::layer::SubscriberExt;
use tracing_subscriber::util::SubscriberInitExt;
use tracing_subscriber::util::TryInitError;
use tracing_subscriber::EnvFilter;
use crate::config::FormatterToggles;
use crate::filter::safe_to_parse;

verus! {

/// `tracing_subscriber::EnvFilter`, a parsed filter expression. The library
/// only carries it from the parser to the registration.
#[verifier::external_type_specification]
#[verifier::external_body]
pub struct ExEnvFilter(tracing_subscriber::EnvFilter);

/// `tracing_subscriber::util::TryInitError`, the backend's report that a
/// registration failed. The library reads nothing in it.
#[verifier::external_type_specification]
#[verifier::external_body]
pub struct ExTryInitError(tracing_subscriber::util::TryInitError);

/// Calls `EnvFilter::new`, which parses the directives between the commas
/// of a filter expression and passes over those that it cannot read.
///
/// Nothing is claimed of the filter that comes back. The `requires` keeps
/// away the texts on which the parser can cut a part of the expression
/// inside a character and panic: it finds its offsets in the trimmed part
/// and applies them to the untrimmed one.
#[verifier::external_body]
pub(crate) fn parse_filter(directives: &str) -> (filter: EnvFilter)
    requires
        safe_to_parse(directives@),
{
    EnvFilter::new(directives)
}

/// Builds a subscriber from `tracing_subscriber::registry()`, the filter, and
/// a `tracing_subscriber::fmt::layer()` with the five toggles, and calls
/// `try_init` on it, which tries to make it the process's global default.
///
/// Nothing is claimed of the outcome: it depends on what the process has
/// registered before. The backend fails when a global default subscriber
/// or a `log` logger is already set.
#[verifier::external_body]
pub(crate) fn try_register(filter: EnvFilter, toggles: FormatterToggles) -> (outcome: Result<
    (),
    TryInitError,
>) {
    tracing_subscriber::registry()
        .with(filter)
        .with(
            tracing_subscriber::fmt::layer()
                .with_thread_ids(toggles.thread_id)
                .with_thread_names(toggles.thread_name)
                .with_file(toggles.file)
                .with_line_number(toggles.line_number)
                .with_target(toggles.target),
        )
        .try_init()
}

} // verus!
