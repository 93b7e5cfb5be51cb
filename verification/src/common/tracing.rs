//! How much is logged, and in what form.

use vstd::prelude::*;
use std::str::FromStr;
use crate::shared::text::{join, str_eq};

verus! {

/// The lower-case form of a text, as `str::to_lowercase` gives it.
pub uninterp spec fn lowercase(s: Seq<char>) -> Seq<char>;

/// Whether every character of the text is an ASCII character.
pub open spec fn is_ascii_text(s: Seq<char>) -> bool {
    forall|i: int| 0 <= i < s.len() ==> (#[trigger] s[i]) as u32 <= 127
}

/// The lower-case form of an ASCII character: a capital letter becomes the
/// small one, and every other character stays.
pub open spec fn ascii_lower(c: char) -> char {
    if 65 <= c as u32 <= 90 {
        ((c as u32) + 32) as char
    } else {
        c
    }
}

/// The text with each character in its ASCII lower-case form.
pub open spec fn ascii_lowercase(s: Seq<char>) -> Seq<char> {
    Seq::new(s.len(), |i: int| ascii_lower(s[i]))
}

/// Calls `str::to_lowercase`. Claimed: the result is the named text, and for
/// a text of ASCII characters it is the text with each capital letter turned
/// into the small one.
#[verifier::external_body]
fn to_lowercase(s: &str) -> (r: String)
    ensures
        r@ == lowercase(s@),
        is_ascii_text(s@) ==> r@ == ascii_lowercase(s@),
{
    s.to_lowercase()
}

/// The least severity that is logged.
#[derive(Debug, Clone, Copy, PartialEq, Eq, Structural)]
pub enum LogLevel {
    Trace,
    Debug,
    Info,
    Warn,
    Error,
}

impl LogLevel {
    /// The name of the level.
    pub open spec fn text(self) -> Seq<char> {
        match self {
            LogLevel::Trace => "trace"@,
            LogLevel::Debug => "debug"@,
            LogLevel::Info => "info"@,
            LogLevel::Warn => "warn"@,
            LogLevel::Error => "error"@,
        }
    }

    /// The level with the given name, if there is one.
    pub open spec fn named(name: Seq<char>) -> Option<LogLevel> {
        if name == "trace"@ {
            Some(LogLevel::Trace)
        } else if name == "debug"@ {
            Some(LogLevel::Debug)
        } else if name == "info"@ {
            Some(LogLevel::Info)
        } else if name == "warn"@ {
            Some(LogLevel::Warn)
        } else if name == "error"@ {
            Some(LogLevel::Error)
        } else {
            None
        }
    }

    /// What is said of a text that names no level.
    pub open spec fn refusal(s: Seq<char>) -> Seq<char> {
        "invalid log level: '"@ + s + "', expected one of: trace, debug, info, warn, error"@
    }

    /// Each level is the one that its name names, and its name is ASCII text
    /// that is its own lower-case form: read back, a level's name gives the
    /// level.
    pub proof fn lemma_named_text(self)
        ensures
            LogLevel::named(self.text()) == Some(self),
            is_ascii_text(self.text()),
            ascii_lowercase(self.text()) == self.text(),
    {
        reveal_strlit("trace");
        reveal_strlit("debug");
        reveal_strlit("info");
        reveal_strlit("warn");
        reveal_strlit("error");
        assert("trace"@[0] == 't');
        assert("debug"@[0] == 'd');
        assert("info"@[0] == 'i');
        assert("warn"@[0] == 'w');
        assert("error"@[0] == 'e');
        assert(ascii_lowercase(self.text()) =~= self.text());
    }
}

impl FromStr for LogLevel {
    type Err = String;

    /// Reads a level from its name, in any mix of upper and lower case.
    fn from_str(s: &str) -> (r: Result<Self, String>)
        ensures
            match r {
                Ok(level) => LogLevel::named(lowercase(s@)) == Some(level),
                Err(reason) => LogLevel::named(lowercase(s@)) is None && reason@
                    == LogLevel::refusal(s@),
            },
            is_ascii_text(s@) ==> match r {
                Ok(level) => LogLevel::named(ascii_lowercase(s@)) == Some(level),
                Err(_) => LogLevel::named(ascii_lowercase(s@)) is None,
            },
    {
        let lower = to_lowercase(s);
        let name = lower.as_str();
        if str_eq(name, "trace") {
            Ok(LogLevel::Trace)
        } else if str_eq(name, "debug") {
            Ok(LogLevel::Debug)
        } else if str_eq(name, "info") {
            Ok(LogLevel::Info)
        } else if str_eq(name, "warn") {
            Ok(LogLevel::Warn)
        } else if str_eq(name, "error") {
            Ok(LogLevel::Error)
        } else {
            let head = join("invalid log level: '", s);
            Err(join(head.as_str(), "', expected one of: trace, debug, info, warn, error"))
        }
    }
}

impl AsRef<str> for LogLevel {
    fn as_ref(&self) -> (r: &str)
        ensures
            r@ == self.text(),
    {
        match self {
            LogLevel::Trace => "trace",
            LogLevel::Debug => "debug",
            LogLevel::Info => "info",
            LogLevel::Warn => "warn",
            LogLevel::Error => "error",
        }
    }
}

/// The form in which log lines are written.
#[derive(Debug, Clone, Copy, PartialEq, Eq, Structural)]
pub enum LogFormat {
    Pretty,
    Json,
}

impl LogFormat {
    /// The format with the given name, if there is one.
    pub open spec fn named(name: Seq<char>) -> Option<LogFormat> {
        if name == "pretty"@ {
            Some(LogFormat::Pretty)
        } else if name == "json"@ {
            Some(LogFormat::Json)
        } else {
            None
        }
    }

    /// What is said of a text that names no format.
    pub open spec fn refusal(s: Seq<char>) -> Seq<char> {
        "invalid log format: '"@ + s + "', expected one of: pretty, json"@
    }
}

impl FromStr for LogFormat {
    type Err = String;

    /// Reads a format from its name, in any mix of upper and lower case.
    fn from_str(s: &str) -> (r: Result<Self, String>)
        ensures
            match r {
                Ok(format) => LogFormat::named(lowercase(s@)) == Some(format),
                Err(reason) => LogFormat::named(lowercase(s@)) is None && reason@
                    == LogFormat::refusal(s@),
            },
            is_ascii_text(s@) ==> match r {
                Ok(format) => LogFormat::named(ascii_lowercase(s@)) == Some(format),
                Err(_) => LogFormat::named(ascii_lowercase(s@)) is None,
            },
    {
        let lower = to_lowercase(s);
        let name = lower.as_str();
        if str_eq(name, "pretty") {
            Ok(LogFormat::Pretty)
        } else if str_eq(name, "json") {
            Ok(LogFormat::Json)
        } else {
            let head = join("invalid log format: '", s);
            Err(join(head.as_str(), "', expected one of: pretty, json"))
        }
    }
}

} // verus!
