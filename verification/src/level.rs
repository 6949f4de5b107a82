//! The severity level and its lowercase text form.

use vstd::prelude::*;
use vstd::string::*;
use vstd::utf8::*;

verus! {

/// Minimum severity of the events that are let through, from the least
/// verbose (`Error`) to the most verbose (`Trace`).
#[derive(Debug, Clone, Copy, PartialEq, Eq, Hash, Structural)]
pub enum LogLevel {
    Error,
    Warn,
    Info,
    Debug,
    Trace,
}

/// Whether two string slices hold the same text, decided on their bytes.
pub(crate) fn same_text(a: &str, b: &str) -> (same: bool)
    ensures
        same == (a@ == b@),
{
    let x = a.as_bytes();
    let y = b.as_bytes();
    proof {
        encode_utf8_decode_utf8(a@);
        encode_utf8_decode_utf8(b@);
    }
    if x.len() != y.len() {
        return false;
    }
    let n: usize = x.len();
    let mut i: usize = 0;
    while i < n
        invariant
            i <= n,
            n == x@.len(),
            n == y@.len(),
            x@ == a.spec_bytes(),
            y@ == b.spec_bytes(),
            forall|j: int| 0 <= j < i ==> x@[j] == y@[j],
        decreases n - i,
    {
        if x[i] != y[i] {
            return false;
        }
        i += 1;
    }
    assert(x@ =~= y@);
    true
}

impl LogLevel {
    /// The lowercase name of the level, as it stands in configuration text
    /// and in filter directives.
    pub open spec fn name(self) -> Seq<char> {
        match self {
            LogLevel::Error => "error"@,
            LogLevel::Warn => "warn"@,
            LogLevel::Info => "info"@,
            LogLevel::Debug => "debug"@,
            LogLevel::Trace => "trace"@,
        }
    }

    /// The level that a text names, if it names one. Only the exact
    /// lowercase names are levels.
    pub open spec fn named_by(text: Seq<char>) -> Option<LogLevel> {
        if text == "error"@ {
            Some(LogLevel::Error)
        } else if text == "warn"@ {
            Some(LogLevel::Warn)
        } else if text == "info"@ {
            Some(LogLevel::Info)
        } else if text == "debug"@ {
            Some(LogLevel::Debug)
        } else if text == "trace"@ {
            Some(LogLevel::Trace)
        } else {
            None
        }
    }

    /// The lowercase name of the level.
    pub fn as_str(&self) -> (text: &'static str)
        ensures
            text@ == self.name(),
    {
        match self {
            LogLevel::Error => "error",
            LogLevel::Warn => "warn",
            LogLevel::Info => "info",
            LogLevel::Debug => "debug",
            LogLevel::Trace => "trace",
        }
    }

    /// The lowercase name of the level, as an owned string.
    pub fn to_string(&self) -> (text: String)
        ensures
            text@ == self.name(),
    {
        String::from_str(self.as_str())
    }

    /// Reads a level from its lowercase name. Any other text, a name in
    /// upper case or with white space around it included, is no level.
    pub fn parse(text: &str) -> (level: Option<LogLevel>)
        ensures
            level == Self::named_by(text@),
    {
        if same_text(text, "error") {
            Some(LogLevel::Error)
        } else if same_text(text, "warn") {
            Some(LogLevel::Warn)
        } else if same_text(text, "info") {
            Some(LogLevel::Info)
        } else if same_text(text, "debug") {
            Some(LogLevel::Debug)
        } else if same_text(text, "trace") {
            Some(LogLevel::Trace)
        } else {
            None
        }
    }

    /// The five names are five different texts, none of them empty.
    pub proof fn lemma_names_differ(a: LogLevel, b: LogLevel)
        ensures
            a.name().len() > 0,
            a.name() == b.name() <==> a == b,
    {
        reveal_strlit("error");
        reveal_strlit("warn");
        reveal_strlit("info");
        reveal_strlit("debug");
        reveal_strlit("trace");
        if a != b && a.name().len() == b.name().len() {
            assert(a.name()[0] != b.name()[0]);
        }
    }

    /// Reading back the name of a level gives that level.
    pub proof fn lemma_name_round_trip(level: LogLevel)
        ensures
            Self::named_by(level.name()) == Some(level),
    {
        Self::lemma_names_differ(level, LogLevel::Error);
        Self::lemma_names_differ(level, LogLevel::Warn);
        Self::lemma_names_differ(level, LogLevel::Info);
        Self::lemma_names_differ(level, LogLevel::Debug);
        Self::lemma_names_differ(level, LogLevel::Trace);
    }

    /// A text names a level exactly when it is that level's name.
    pub proof fn lemma_named_by_is_name(text: Seq<char>, level: LogLevel)
        ensures
            Self::named_by(text) == Some(level) <==> text == level.name(),
    {
        Self::lemma_name_round_trip(level);
    }
}

impl Default for LogLevel {
    /// `Info`, the level of a configuration that names none.
    fn default() -> (level: LogLevel)
        ensures
            level == LogLevel::Info,
    {
        LogLevel::Info
    }
}

} // verus!
