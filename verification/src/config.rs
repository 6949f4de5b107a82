//! The logger's configuration: a severity level and five display toggles,
//! each with a default for a configuration that leaves it out.

use vstd::prelude::*;
use crate::level::LogLevel;

verus! {

/// The value of a display toggle that a configuration leaves out: shown.
pub fn default_true() -> (shown: bool)
    ensures
        shown,
{
    true
}

/// What the logger is asked to do: the least severe level that is still
/// let through, and which parts of an event's metadata each line shows.
/// Every combination of values is a valid configuration.
#[derive(Debug, Clone, Copy, PartialEq, Eq, Structural)]
pub struct LoggerConfig {
    pub level: LogLevel,
    pub show_thread_id: bool,
    pub show_thread_name: bool,
    pub show_file: bool,
    pub show_line_number: bool,
    pub show_target: bool,
}

/// What a configuration source supplies. Every key may be absent.
#[derive(Debug, Clone, Copy, PartialEq, Eq)]
pub struct ConfigSource {
    pub level: Option<LogLevel>,
    pub show_thread_id: Option<bool>,
    pub show_thread_name: Option<bool>,
    pub show_file: Option<bool>,
    pub show_line_number: Option<bool>,
    pub show_target: Option<bool>,
}

/// The display toggles of the line formatter, one for each part of an
/// event's metadata.
#[derive(Debug, Clone, Copy, PartialEq, Eq, Structural)]
pub struct FormatterToggles {
    pub thread_id: bool,
    pub thread_name: bool,
    pub file: bool,
    pub line_number: bool,
    pub target: bool,
}

/// The toggle that a source supplies, or the default where it supplies none.
fn toggle_or_default(supplied: Option<bool>) -> (shown: bool)
    ensures
        shown == ConfigSource::toggle(supplied),
{
    match supplied {
        Some(shown) => shown,
        None => default_true(),
    }
}

impl ConfigSource {
    /// The value of a toggle: what was supplied, or shown where nothing was.
    pub open spec fn toggle(supplied: Option<bool>) -> bool {
        match supplied {
            Some(shown) => shown,
            None => true,
        }
    }

    /// The configuration that the source stands for: each key that it
    /// supplies, and the default of each key that it leaves out.
    pub open spec fn resolved(self) -> LoggerConfig {
        LoggerConfig {
            level: match self.level {
                Some(level) => level,
                None => LogLevel::Info,
            },
            show_thread_id: Self::toggle(self.show_thread_id),
            show_thread_name: Self::toggle(self.show_thread_name),
            show_file: Self::toggle(self.show_file),
            show_line_number: Self::toggle(self.show_line_number),
            show_target: Self::toggle(self.show_target),
        }
    }

    /// The source with every key absent.
    pub open spec fn nothing() -> ConfigSource {
        ConfigSource {
            level: None,
            show_thread_id: None,
            show_thread_name: None,
            show_file: None,
            show_line_number: None,
            show_target: None,
        }
    }
}

impl LoggerConfig {
    /// The default configuration: level `Info`, everything shown.
    pub open spec fn defaults() -> LoggerConfig {
        LoggerConfig {
            level: LogLevel::Info,
            show_thread_id: true,
            show_thread_name: true,
            show_file: true,
            show_line_number: true,
            show_target: true,
        }
    }

    /// The formatter toggles that the configuration asks for, one for each
    /// display field.
    pub open spec fn toggles(self) -> FormatterToggles {
        FormatterToggles {
            thread_id: self.show_thread_id,
            thread_name: self.show_thread_name,
            file: self.show_file,
            line_number: self.show_line_number,
            target: self.show_target,
        }
    }

    /// Builds the configuration from what a source supplies, with the
    /// default for each key that the source leaves out.
    pub fn from_source(source: &ConfigSource) -> (config: LoggerConfig)
        ensures
            config == source.resolved(),
    {
        LoggerConfig {
            level: match source.level {
                Some(level) => level,
                None => LogLevel::default(),
            },
            show_thread_id: toggle_or_default(source.show_thread_id),
            show_thread_name: toggle_or_default(source.show_thread_name),
            show_file: toggle_or_default(source.show_file),
            show_line_number: toggle_or_default(source.show_line_number),
            show_target: toggle_or_default(source.show_target),
        }
    }

    /// Maps the five display fields onto the formatter's toggles.
    pub fn formatter_toggles(&self) -> (toggles: FormatterToggles)
        ensures
            toggles == self.toggles(),
    {
        FormatterToggles {
            thread_id: self.show_thread_id,
            thread_name: self.show_thread_name,
            file: self.show_file,
            line_number: self.show_line_number,
            target: self.show_target,
        }
    }

    /// A source that supplies nothing stands for the default configuration.
    pub proof fn lemma_empty_source_is_default()
        ensures
            ConfigSource::nothing().resolved() == Self::defaults(),
    {
    }
}

impl Default for ConfigSource {
    /// The source that supplies nothing.
    fn default() -> (source: ConfigSource)
        ensures
            source == ConfigSource::nothing(),
    {
        ConfigSource {
            level: None,
            show_thread_id: None,
            show_thread_name: None,
            show_file: None,
            show_line_number: None,
            show_target: None,
        }
    }
}

impl Default for LoggerConfig {
    /// Level `Info` and all five display fields shown.
    fn default() -> (config: LoggerConfig)
        ensures
            config.level == LogLevel::Info,
            config.show_thread_id,
            config.show_thread_name,
            config.show_file,
            config.show_line_number,
            config.show_target,
    {
        LoggerConfig {
            level: LogLevel::default(),
            show_thread_id: true,
            show_thread_name: true,
            show_file: true,
            show_line_number: true,
            show_target: true,
        }
    }
}

} // verus!
