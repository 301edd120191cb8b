//! Severity levels of the logging facade and their native counterparts.

use vstd::prelude::*;

verus! {

/// Severity of a record, as the logging facade knows it.
#[derive(Clone, Copy, Debug, PartialEq, Eq, Structural)]
pub enum Level {
    Error,
    Warn,
    Info,
    Debug,
    Trace,
}

/// Native level "error".
pub const NATIVE_ERROR: u8 = 2;

/// Native level "warning".
pub const NATIVE_WARNING: u8 = 3;

/// Native level "informational".
pub const NATIVE_INFORMATIONAL: u8 = 4;

/// Native level "verbose".
pub const NATIVE_VERBOSE: u8 = 5;

/// The native level that a facade level is written with.
pub open spec fn native_level(level: Level) -> u8 {
    match level {
        Level::Error => NATIVE_ERROR,
        Level::Warn => NATIVE_WARNING,
        Level::Info => NATIVE_INFORMATIONAL,
        Level::Debug => NATIVE_VERBOSE,
        Level::Trace => (NATIVE_VERBOSE + 1) as u8,
    }
}

/// The ordinal of a level in the facade's own order, `Error` being 1.
pub open spec fn severity_number(level: Level) -> u8 {
    match level {
        Level::Error => 1,
        Level::Warn => 2,
        Level::Info => 3,
        Level::Debug => 4,
        Level::Trace => 5,
    }
}

/// The upper-case name of a level.
pub open spec fn severity_text(level: Level) -> Seq<char> {
    match level {
        Level::Error => "ERROR"@,
        Level::Warn => "WARN"@,
        Level::Info => "INFO"@,
        Level::Debug => "DEBUG"@,
        Level::Trace => "TRACE"@,
    }
}

/// Maps a facade level to the native level of its events.
pub fn map_level(level: Level) -> (native: u8)
    ensures
        native == native_level(level),
{
    match level {
        Level::Error => NATIVE_ERROR,
        Level::Warn => NATIVE_WARNING,
        Level::Info => NATIVE_INFORMATIONAL,
        Level::Debug => NATIVE_VERBOSE,
        Level::Trace => NATIVE_VERBOSE + 1,
    }
}

impl Level {
    /// The ordinal of this level in the facade's own order.
    pub fn number(&self) -> (n: u8)
        ensures
            n == severity_number(*self),
    {
        match self {
            Level::Error => 1,
            Level::Warn => 2,
            Level::Info => 3,
            Level::Debug => 4,
            Level::Trace => 5,
        }
    }

    /// The upper-case name of this level.
    pub fn as_str(&self) -> (text: &'static str)
        ensures
            text@ == severity_text(*self),
    {
        match self {
            Level::Error => "ERROR",
            Level::Warn => "WARN",
            Level::Info => "INFO",
            Level::Debug => "DEBUG",
            Level::Trace => "TRACE",
        }
    }
}

/// The level table: error, warning, informational and verbose keep their
/// native values 2 to 5, and `Trace` lands one step past verbose instead of
/// collapsing into it.
pub proof fn lemma_level_table()
    ensures
        native_level(Level::Error) == 2,
        native_level(Level::Warn) == 3,
        native_level(Level::Info) == 4,
        native_level(Level::Debug) == 5,
        native_level(Level::Trace) == native_level(Level::Debug) + 1,
{
}

/// A more severe facade level never maps to a larger native level, and two
/// different facade levels never share one.
pub proof fn lemma_level_order(a: Level, b: Level)
    ensures
        severity_number(a) < severity_number(b) <==> native_level(a) < native_level(b),
        a != b ==> native_level(a) != native_level(b),
{
}

} // verus!
