use vstd::prelude::*;

use crate::error::IndexError;
use crate::language::lower_of;

verus! {

/// When output should be colorized.
#[derive(Debug, Clone, Copy, PartialEq, Eq, Structural)]
pub enum ColorMode {
    /// Colorize when the terminal supports it.
    Auto,
    /// Always colorize.
    Always,
    /// Always colorize, emitting ANSI escapes even on consoles that
    /// would otherwise take another path.
    Ansi,
    /// Never colorize.
    Never,
}

/// Relies on atty::is(atty::Stream::Stdout): whether standard output is
/// a terminal. The answer depends on the process's environment, so
/// nothing is promised of it.
#[verifier::external_body]
fn stdout_is_terminal() -> bool {
    atty::is(atty::Stream::Stdout)
}

/// Which modes a lowercased color word may resolve to.
///
/// `"auto"` may resolve to `Auto` or to `Never`, depending on whether
/// standard output is a terminal; every other word names exactly one
/// mode or none.
pub open spec fn color_word_allows(low: Seq<char>, m: ColorMode) -> bool {
    if low == "always"@ {
        m == ColorMode::Always
    } else if low == "ansi"@ {
        m == ColorMode::Ansi
    } else if low == "auto"@ {
        m == ColorMode::Auto || m == ColorMode::Never
    } else if low == "never"@ {
        m == ColorMode::Never
    } else {
        false
    }
}

impl ColorMode {
    /// Parses a color word, case-insensitively.
    ///
    /// `"auto"` resolves immediately against the terminal: it yields
    /// `Auto` when standard output is a terminal and `Never` otherwise.
    /// Any word naming no mode is rejected.
    pub fn from_str(s: &str) -> (r: Result<ColorMode, IndexError>)
        ensures
            match r {
                Ok(m) => color_word_allows(lower_of(s@), m),
                Err(e) => (forall|m: ColorMode| !color_word_allows(lower_of(s@), m)) && e
                    is InvalidValue,
            },
    {
        let low = crate::language::lowercase(s);
        if low == String::from_str("always") {
            Ok(ColorMode::Always)
        } else if low == String::from_str("ansi") {
            Ok(ColorMode::Ansi)
        } else if low == String::from_str("auto") {
            if stdout_is_terminal() {
                Ok(ColorMode::Auto)
            } else {
                Ok(ColorMode::Never)
            }
        } else if low == String::from_str("never") {
            Ok(ColorMode::Never)
        } else {
            Err(IndexError::InvalidValue(low))
        }
    }
}

} // verus!
