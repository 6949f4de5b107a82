//! Configuration for a process-wide structured logger: a severity level and
//! five display toggles, turned into one registration with the tracing backend.

mod backend;
pub mod config;
pub mod filter;
pub mod init;
pub mod level;

pub use config::{default_true, ConfigSource, FormatterToggles, LoggerConfig};
pub use filter::{filter_expression, is_safe_to_parse};
pub use init::{init_default_logger, init_logger, registration_result, InitError};
pub use level::LogLevel;
