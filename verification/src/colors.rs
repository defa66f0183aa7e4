use vstd::prelude::*;

use crate::level::Level;

verus! {

/// The mathematical view of an [`AnsiColors`] value: the character
/// sequences of its five escape-code strings.
pub struct ColorsView {
    pub info: Seq<char>,
    pub warn: Seq<char>,
    pub error: Seq<char>,
    pub debug: Seq<char>,
    pub reset: Seq<char>,
}

/// ANSI color configuration: one escape-code prefix per severity, plus the
/// reset code written after the bracketed tag. Entries may be empty
/// strings, which render as no visible decoration.
#[derive(Debug)]
pub struct AnsiColors {
    pub info: String,
    pub warn: String,
    pub error: String,
    pub debug: String,
    pub reset: String,
}

impl View for AnsiColors {
    type V = ColorsView;

    open spec fn view(&self) -> ColorsView {
        ColorsView {
            info: self.info@,
            warn: self.warn@,
            error: self.error@,
            debug: self.debug@,
            reset: self.reset@,
        }
    }
}

/// The standard scheme: green, yellow, red and blue prefixes, and the
/// terminal reset code.
pub open spec fn default_colors() -> ColorsView {
    ColorsView {
        info: "\x1b[32m"@,
        warn: "\x1b[33m"@,
        error: "\x1b[31m"@,
        debug: "\x1b[34m"@,
        reset: "\x1b[0m"@,
    }
}

/// A scheme's escape-code prefix for a severity.
pub open spec fn entry_for(c: ColorsView, level: Level) -> Seq<char> {
    match level {
        Level::Info => c.info,
        Level::Warn => c.warn,
        Level::Error => c.error,
        Level::Debug => c.debug,
    }
}

/// The scheme with one severity's entry replaced and everything else,
/// the reset code included, kept as it was.
pub open spec fn with_entry(c: ColorsView, level: Level, code: Seq<char>) -> ColorsView {
    match level {
        Level::Info => ColorsView { info: code, ..c },
        Level::Warn => ColorsView { warn: code, ..c },
        Level::Error => ColorsView { error: code, ..c },
        Level::Debug => ColorsView { debug: code, ..c },
    }
}

/// The scheme consulted at rendering time: the explicit one when set,
/// else the default.
pub open spec fn effective_scheme(colors: Option<ColorsView>) -> ColorsView {
    match colors {
        Some(c) => c,
        None => default_colors(),
    }
}

impl Default for AnsiColors {
    /// The standard scheme as an executable value.
    fn default() -> (c: Self)
        ensures
            c@ == default_colors(),
    {
        AnsiColors {
            info: "\x1b[32m".to_owned(),
            warn: "\x1b[33m".to_owned(),
            error: "\x1b[31m".to_owned(),
            debug: "\x1b[34m".to_owned(),
            reset: "\x1b[0m".to_owned(),
        }
    }
}

impl Clone for AnsiColors {
    /// A clone keeps every escape-code string.
    fn clone(&self) -> (r: Self)
        ensures
            r@ == self@,
    {
        AnsiColors {
            info: self.info.clone(),
            warn: self.warn.clone(),
            error: self.error.clone(),
            debug: self.debug.clone(),
            reset: self.reset.clone(),
        }
    }
}

impl AnsiColors {
    /// The escape-code prefix this scheme holds for a severity.
    pub fn entry(&self, level: Level) -> (r: &String)
        ensures
            r@ == entry_for(self@, level),
    {
        match level {
            Level::Info => &self.info,
            Level::Warn => &self.warn,
            Level::Error => &self.error,
            Level::Debug => &self.debug,
        }
    }
}

/// Law: overriding one severity's color changes exactly that severity's
/// entry; every other severity's entry and the reset code stay what the
/// scheme in effect held before.
pub proof fn lemma_override_changes_one_entry(before: ColorsView, level: Level, code: Seq<char>)
    ensures
        entry_for(with_entry(before, level, code), level) == code,
        forall|other: Level|
            other != level ==> entry_for(with_entry(before, level, code), other) == entry_for(
                before,
                other,
            ),
        with_entry(before, level, code).reset == before.reset,
{
    assert forall|other: Level|
        other != level implies entry_for(with_entry(before, level, code), other) == entry_for(
        before,
        other,
    ) by {
        match other {
            Level::Info => {},
            Level::Warn => {},
            Level::Error => {},
            Level::Debug => {},
        }
    }
}

} // verus!
