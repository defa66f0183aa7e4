use vstd::prelude::*;

use std::fmt::Write;
use vstd::string::StringExecFns;

use crate::colors::{effective_scheme, entry_for, AnsiColors, ColorsView};
use crate::digits::{code_string, int_chars};
use crate::level::{stream_of, tag_chars, tag_str, Level, Stream};

verus! {

/// The mathematical view of a finalized record.
pub struct LogView {
    pub message: Seq<char>,
    pub level: Level,
    pub code: Option<int>,
    pub timestamp: bool,
    pub ts_format: Option<Seq<char>>,
    pub colors: Option<ColorsView>,
    pub color_enabled: bool,
}

/// A finalized, immutable log record: everything needed to render exactly
/// one line on exactly one stream.
pub struct Logger {
    pub message: String,
    pub level: Level,
    pub code: Option<i32>,
    pub timestamp: bool,
    pub ts_format: Option<String>,
    pub colors: Option<AnsiColors>,
    pub color_enabled: bool,
}

impl View for Logger {
    type V = LogView;

    open spec fn view(&self) -> LogView {
        LogView {
            message: self.message@,
            level: self.level,
            code: match self.code {
                Some(c) => Some(c as int),
                None => None,
            },
            timestamp: self.timestamp,
            ts_format: match self.ts_format {
                Some(f) => Some(f@),
                None => None,
            },
            colors: match self.colors {
                Some(c) => Some(c@),
                None => None,
            },
            color_enabled: self.color_enabled,
        }
    }
}

/// The timestamp pattern used when timestamps are enabled and no override
/// was given.
pub open spec fn default_pattern() -> Seq<char> {
    "%Y-%m-%d %H:%M:%S"@
}

/// The severity prefix: the bracketed tag, wrapped in the effective
/// scheme's color and reset codes when color is enabled, and plain
/// otherwise.
pub open spec fn prefix_chars(v: LogView) -> Seq<char> {
    if v.color_enabled {
        entry_for(effective_scheme(v.colors), v.level) + "["@ + tag_chars(v.level) + "]"@
            + effective_scheme(v.colors).reset
    } else {
        "["@ + tag_chars(v.level) + "]"@
    }
}

/// The bracketed timestamp text with its trailing space; empty when
/// timestamps are disabled.
pub open spec fn ts_prefix_chars(v: LogView, ts: Seq<char>) -> Seq<char> {
    if v.timestamp {
        "["@ + ts + "] "@
    } else {
        Seq::empty()
    }
}

/// The code suffix; empty when no code was set. Presence, not value,
/// governs it: a code of zero still produces a visible suffix.
pub open spec fn code_suffix_chars(code: Option<int>) -> Seq<char> {
    match code {
        Some(c) => " (code "@ + int_chars(c) + ")"@,
        None => Seq::empty(),
    }
}

/// The full rendered line for a record, given the formatted wall-clock
/// text: timestamp prefix, severity prefix, one separating space, the
/// message, and the code suffix.
pub open spec fn line_chars(v: LogView, ts: Seq<char>) -> Seq<char> {
    ts_prefix_chars(v, ts) + prefix_chars(v) + " "@ + v.message + code_suffix_chars(v.code)
}

/// What rendering a record promises of its outcome: a record without
/// timestamps always yields its exact line; a record whose timestamp
/// pattern in effect is the default one always yields a line, since the
/// formatter knows every directive of that pattern; and whatever line
/// comes back is the record's line for some formatted time text.
pub open spec fn render_post(v: LogView, r: Option<String>) -> bool {
    &&& !v.timestamp ==> (r matches Some(line) && line@ == line_chars(v, Seq::empty()))
    &&& v.timestamp && (v.ts_format is None || v.ts_format == Some(default_pattern())) ==> r
        is Some
    &&& r matches Some(line) ==> exists|ts: Seq<char>| line@ == line_chars(v, ts)
}

/// Relies on `chrono::Local::now` and `chrono::format::DelayedFormat`:
/// renders the current local wall-clock time with the given strftime
/// pattern. The result depends on the clock, so nothing is promised of
/// its text; the formatter rejects patterns with unknown directives by a
/// formatting error rather than a panic, and `None` is returned then.
/// Every directive of the default pattern is one the formatter knows, so
/// on that pattern it always yields a line.
#[verifier::external_body]
fn formatted_local_now(pattern: &str) -> (r: Option<String>)
    ensures
        pattern@ == default_pattern() ==> r is Some,
{
    let mut out = String::new();
    match write!(out, "{}", chrono::Local::now().format(pattern)) {
        Ok(()) => Some(out),
        Err(_) => None,
    }
}

impl Logger {
    /// Composes the full line from the record and the already-formatted
    /// timestamp text; `ts_text` is ignored when timestamps are disabled.
    pub fn compose_line(&self, ts_text: &str) -> (line: String)
        ensures
            line@ == line_chars(self@, ts_text@),
    {
        let mut line = String::new();
        if self.timestamp {
            line.append("[");
            line.append(ts_text);
            line.append("] ");
        }
        if self.color_enabled {
            let scheme = match &self.colors {
                Some(c) => c.clone(),
                None => AnsiColors::default(),
            };
            line.append(scheme.entry(self.level).as_str());
            line.append("[");
            line.append(tag_str(self.level));
            line.append("]");
            line.append(scheme.reset.as_str());
        } else {
            line.append("[");
            line.append(tag_str(self.level));
            line.append("]");
        }
        line.append(" ");
        line.append(self.message.as_str());
        match &self.code {
            Some(c) => {
                line.append(" (code ");
                line.append(code_string(*c).as_str());
                line.append(")");
            },
            None => {},
        }
        proof {
            assert(line@ =~= line_chars(self@, ts_text@));
        }
        line
    }

    /// The output stream this record's line is routed to: warnings and
    /// errors to the error stream, the rest to standard output.
    pub fn target(&self) -> (s: Stream)
        ensures
            s == stream_of(self@.level),
    {
        match self.level {
            Level::Warn => Stream::Error,
            Level::Error => Stream::Error,
            Level::Info => Stream::Standard,
            Level::Debug => Stream::Standard,
        }
    }

    /// Renders the record: formats the current wall-clock time when
    /// timestamps are enabled, then composes the line. `None` comes back
    /// only when timestamps are enabled and the date-formatting facility
    /// rejected the pattern.
    pub fn render(&self) -> (r: Option<String>)
        ensures
            render_post(self@, r),
    {
        if self.timestamp {
            let formatted = match &self.ts_format {
                Some(f) => formatted_local_now(f.as_str()),
                None => formatted_local_now("%Y-%m-%d %H:%M:%S"),
            };
            match formatted {
                Some(ts) => {
                    let line = self.compose_line(ts.as_str());
                    proof {
                        assert(line@ == line_chars(self@, ts@));
                    }
                    Some(line)
                },
                None => None,
            }
        } else {
            let line = self.compose_line("");
            proof {
                assert(line@ == line_chars(self@, Seq::empty()));
            }
            Some(line)
        }
    }

    /// Renders as [`Logger::render`] does; the severity stored in the
    /// record decides tag, color, and stream.
    pub fn info(&self) -> (r: Option<String>)
        ensures
            render_post(self@, r),
    {
        self.render()
    }

    /// Renders as [`Logger::render`] does; the severity stored in the
    /// record decides tag, color, and stream.
    pub fn warn(&self) -> (r: Option<String>)
        ensures
            render_post(self@, r),
    {
        self.render()
    }

    /// Renders as [`Logger::render`] does; the severity stored in the
    /// record decides tag, color, and stream.
    pub fn error(&self) -> (r: Option<String>)
        ensures
            render_post(self@, r),
    {
        self.render()
    }

    /// Renders as [`Logger::render`] does; the severity stored in the
    /// record decides tag, color, and stream.
    pub fn debug(&self) -> (r: Option<String>)
        ensures
            render_post(self@, r),
    {
        self.render()
    }
}

/// Law: for every message and every severity, a record without timestamp
/// and without code renders as exactly the bracketed tag, one separating
/// space, and the message — colorized when color is enabled, plain
/// otherwise — with nothing before or after.
pub proof fn lemma_line_no_extras(v: LogView, ts: Seq<char>)
    requires
        !v.timestamp,
        v.code is None,
    ensures
        !v.color_enabled ==> line_chars(v, ts) == "["@ + tag_chars(v.level) + "]"@ + " "@
            + v.message,
        v.color_enabled ==> line_chars(v, ts) == entry_for(effective_scheme(v.colors), v.level)
            + "["@ + tag_chars(v.level) + "]"@ + effective_scheme(v.colors).reset + " "@
            + v.message,
{
    if v.color_enabled {
        assert(line_chars(v, ts) =~= entry_for(effective_scheme(v.colors), v.level) + "["@
            + tag_chars(v.level) + "]"@ + effective_scheme(v.colors).reset + " "@ + v.message);
    } else {
        assert(line_chars(v, ts) =~= "["@ + tag_chars(v.level) + "]"@ + " "@ + v.message);
    }
}

/// Law: the presence of a code, not its value, decides the suffix. With a
/// code set the line carries exactly ` (code N)` after the message; with
/// none it ends at the message.
pub proof fn lemma_code_presence(v: LogView, ts: Seq<char>)
    ensures
        v.code matches Some(c) ==> line_chars(v, ts) == ts_prefix_chars(v, ts) + prefix_chars(v)
            + " "@ + v.message + " (code "@ + int_chars(c) + ")"@,
        v.code is None ==> line_chars(v, ts) == ts_prefix_chars(v, ts) + prefix_chars(v) + " "@
            + v.message,
{
    match v.code {
        Some(c) => {
            assert(line_chars(v, ts) =~= ts_prefix_chars(v, ts) + prefix_chars(v) + " "@
                + v.message + " (code "@ + int_chars(c) + ")"@);
        },
        None => {
            assert(line_chars(v, ts) =~= ts_prefix_chars(v, ts) + prefix_chars(v) + " "@
                + v.message);
        },
    }
}

/// Law: once color is disabled the line uses the plain bracket format,
/// whatever color scheme the record still carries.
pub proof fn lemma_no_color_is_plain(v: LogView, ts: Seq<char>)
    requires
        !v.color_enabled,
    ensures
        line_chars(v, ts) == ts_prefix_chars(v, ts) + "["@ + tag_chars(v.level) + "]"@ + " "@
            + v.message + code_suffix_chars(v.code),
{
    assert(line_chars(v, ts) =~= ts_prefix_chars(v, ts) + "["@ + tag_chars(v.level) + "]"@ + " "@
        + v.message + code_suffix_chars(v.code));
}

} // verus!
