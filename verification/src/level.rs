use vstd::prelude::*;

verus! {

/// Severity of a single log line: it selects the display tag, the default
/// color, and the output stream. No ordering or filtering semantics are
/// attached to it.
#[derive(Clone, Copy, PartialEq, Eq, Structural, Debug)]
pub enum Level {
    Info,
    Warn,
    Error,
    Debug,
}

/// The two conventional process output channels a rendered line can be
/// routed to.
#[derive(Clone, Copy, PartialEq, Eq, Structural, Debug)]
pub enum Stream {
    Standard,
    Error,
}

/// The tag text shown between brackets for each severity.
pub open spec fn tag_chars(level: Level) -> Seq<char> {
    match level {
        Level::Info => "INFO"@,
        Level::Warn => "WARN"@,
        Level::Error => "ERROR"@,
        Level::Debug => "DEBUG"@,
    }
}

/// Warnings and errors are routed to the error stream; informational and
/// debug lines to standard output.
pub open spec fn stream_of(level: Level) -> Stream {
    match level {
        Level::Warn => Stream::Error,
        Level::Error => Stream::Error,
        Level::Info => Stream::Standard,
        Level::Debug => Stream::Standard,
    }
}

/// The display tag for a severity.
pub fn tag_str(level: Level) -> (r: &'static str)
    ensures
        r@ == tag_chars(level),
{
    match level {
        Level::Info => "INFO",
        Level::Warn => "WARN",
        Level::Error => "ERROR",
        Level::Debug => "DEBUG",
    }
}

} // verus!
