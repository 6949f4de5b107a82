use std::sync::OnceLock;

use logger::{init_logger, InitError, LogLevel, LoggerConfig};
use tracing::callsite::{Callsite, Identifier};
use tracing::field::FieldSet;
use tracing::level_filters::LevelFilter;
use tracing::metadata::Kind;
use tracing::subscriber::Interest;
use tracing::{Level, Metadata};

struct Site(OnceLock<Metadata<'static>>);

impl Callsite for Site {
    fn set_interest(&self, _: Interest) {}

    fn metadata(&self) -> &Metadata<'_> {
        self.0.get().unwrap()
    }
}

/// Whether the installed logger lets an event of this level and target through.
fn lets_through(level: Level, target: &'static str) -> bool {
    let site: &'static Site = Box::leak(Box::new(Site(OnceLock::new())));
    let fields = FieldSet::new(&[], Identifier(site));
    let metadata = Metadata::new("event", target, level, None, None, None, fields, Kind::EVENT);
    let metadata = site.0.get_or_init(|| metadata);
    tracing::dispatcher::get_default(|dispatch| dispatch.enabled(metadata))
}

#[test]
fn init_with_trace_level_lets_everything_through() {
    let config = LoggerConfig {
        level: LogLevel::Trace,
        show_thread_id: false,
        show_thread_name: false,
        show_file: false,
        show_line_number: false,
        show_target: false,
    };
    assert_eq!(init_logger("svc", &config), Ok(()));
    assert_eq!(LevelFilter::current(), LevelFilter::TRACE);
    assert!(lets_through(Level::TRACE, "svc"));
    assert!(lets_through(Level::TRACE, "elsewhere"));

    for level in [LogLevel::Error, LogLevel::Warn, LogLevel::Info, LogLevel::Debug, LogLevel::Trace] {
        let later = LoggerConfig { level, ..LoggerConfig::default() };
        assert_eq!(init_logger("svc", &later), Err(InitError::AlreadyInitialized));
    }
    assert_eq!(LevelFilter::current(), LevelFilter::TRACE);
}
