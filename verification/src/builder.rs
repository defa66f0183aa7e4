use vstd::prelude::*;

use crate::colors::{effective_scheme, with_entry, AnsiColors, ColorsView};
use crate::level::Level;
use crate::record::{default_pattern, LogView, Logger};

verus! {

/// The mathematical view of a builder: the record's fields minus the
/// severity, which is only bound at finalization.
pub struct BuilderView {
    pub message: Seq<char>,
    pub code: Option<int>,
    pub timestamp: bool,
    pub ts_format: Option<Seq<char>>,
    pub colors: Option<ColorsView>,
    pub color_enabled: bool,
}

/// A transient accumulator of optional settings. Every configuration call
/// consumes the builder and returns the updated one, and finalization
/// consumes it for good: a finalized builder cannot be touched again.
pub struct LoggerBuilder {
    pub message: String,
    pub code: Option<i32>,
    pub timestamp: bool,
    pub ts_format: Option<String>,
    pub colors: Option<AnsiColors>,
    pub color_enabled: bool,
}

impl View for LoggerBuilder {
    type V = BuilderView;

    open spec fn view(&self) -> BuilderView {
        BuilderView {
            message: self.message@,
            code: match self.code {
                Some(c) => Some(c as int),
                None => None,
            },
            timestamp: self.timestamp,
            ts_format: match self.ts_format {
                Some(f) => Some(f@),
                None => None,
            },
            colors: match self.colors {
                Some(c) => Some(c@),
                None => None,
            },
            color_enabled: self.color_enabled,
        }
    }
}

/// The view of a fresh builder: only the message set, no code, timestamps
/// off, colors on with no explicit scheme.
pub open spec fn fresh_builder(message: Seq<char>) -> BuilderView {
    BuilderView {
        message: message,
        code: None,
        timestamp: false,
        ts_format: None,
        colors: None,
        color_enabled: true,
    }
}

/// The record a builder finalizes into once a severity is bound.
pub open spec fn finalized(b: BuilderView, level: Level) -> LogView {
    LogView {
        message: b.message,
        level: level,
        code: b.code,
        timestamp: b.timestamp,
        ts_format: b.ts_format,
        colors: b.colors,
        color_enabled: b.color_enabled,
    }
}

impl LoggerBuilder {
    /// A fresh builder for a message; any text is accepted, the empty one
    /// included.
    pub fn new(message: String) -> (b: Self)
        ensures
            b@ == fresh_builder(message@),
    {
        LoggerBuilder {
            message,
            code: None,
            timestamp: false,
            ts_format: None,
            colors: None,
            color_enabled: true,
        }
    }

    /// Sets the numeric code appended to the message; the last call wins.
    pub fn code(self, code: i32) -> (r: Self)
        ensures
            r@ == (BuilderView { code: Some(code as int), ..self@ }),
    {
        LoggerBuilder { code: Some(code), ..self }
    }

    /// Enables timestamps; installs the default pattern when none was set
    /// yet, and keeps a pattern that was.
    pub fn timestamp(self) -> (r: Self)
        ensures
            r@ == (BuilderView {
                timestamp: true,
                ts_format: if self@.ts_format is Some {
                    self@.ts_format
                } else {
                    Some(default_pattern())
                },
                ..self@
            }),
    {
        let mut b = self;
        b.timestamp = true;
        if b.ts_format.is_none() {
            b.ts_format = Some("%Y-%m-%d %H:%M:%S".to_owned());
        }
        b
    }

    /// Sets the exact timestamp pattern, overriding any previous one, and
    /// enables timestamps.
    pub fn timestamp_format(self, fmt: String) -> (r: Self)
        ensures
            r@ == (BuilderView { timestamp: true, ts_format: Some(fmt@), ..self@ }),
    {
        LoggerBuilder { timestamp: true, ts_format: Some(fmt), ..self }
    }

    /// Disables ANSI decoration entirely; the prefix falls back to the
    /// plain bracketed tag whatever scheme was set before.
    pub fn no_color(self) -> (r: Self)
        ensures
            r@ == (BuilderView { color_enabled: false, ..self@ }),
    {
        LoggerBuilder { color_enabled: false, ..self }
    }

    /// Replaces the whole color scheme.
    pub fn colors(self, colors: AnsiColors) -> (r: Self)
        ensures
            r@ == (BuilderView { colors: Some(colors@), ..self@ }),
    {
        LoggerBuilder { colors: Some(colors), ..self }
    }

    /// Overrides a single severity's color code within the scheme in
    /// effect, starting from the default scheme when none was set yet;
    /// the other severities and the reset code are untouched.
    pub fn color_for_level(self, level: Level, ansi_prefix: String) -> (r: Self)
        ensures
            r@ == (BuilderView {
                colors: Some(with_entry(effective_scheme(self@.colors), level, ansi_prefix@)),
                ..self@
            }),
    {
        let LoggerBuilder { message, code, timestamp, ts_format, colors, color_enabled } = self;
        let mut cfg = match colors {
            Some(c) => c,
            None => AnsiColors::default(),
        };
        match level {
            Level::Info => cfg.info = ansi_prefix,
            Level::Warn => cfg.warn = ansi_prefix,
            Level::Error => cfg.error = ansi_prefix,
            Level::Debug => cfg.debug = ansi_prefix,
        }
        LoggerBuilder { message, code, timestamp, ts_format, colors: Some(cfg), color_enabled }
    }

    /// Binds the severity and produces the immutable record, consuming the
    /// builder.
    pub fn build(self, level: Level) -> (l: Logger)
        ensures
            l@ == finalized(self@, level),
    {
        Logger {
            message: self.message,
            level,
            code: self.code,
            timestamp: self.timestamp,
            ts_format: self.ts_format,
            colors: self.colors,
            color_enabled: self.color_enabled,
        }
    }

    /// Finalizes the builder into a record of Info severity.
    pub fn info(self) -> (l: Logger)
        ensures
            l@ == finalized(self@, Level::Info),
    {
        self.build(Level::Info)
    }

    /// Finalizes the builder into a record of Warn severity.
    pub fn warn(self) -> (l: Logger)
        ensures
            l@ == finalized(self@, Level::Warn),
    {
        self.build(Level::Warn)
    }

    /// Finalizes the builder into a record of Error severity.
    pub fn error(self) -> (l: Logger)
        ensures
            l@ == finalized(self@, Level::Error),
    {
        self.build(Level::Error)
    }

    /// Finalizes the builder into a record of Debug severity.
    pub fn debug(self) -> (l: Logger)
        ensures
            l@ == finalized(self@, Level::Debug),
    {
        self.build(Level::Debug)
    }
}

/// The library's entry point: starts a builder for a message.
pub fn log(message: String) -> (b: LoggerBuilder)
    ensures
        b@ == fresh_builder(message@),
{
    LoggerBuilder::new(message)
}

} // verus!
