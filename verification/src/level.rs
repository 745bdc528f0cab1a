//! Severity levels and the thresholds that gate output on them.

use vstd::prelude::*;

verus! {

/// Severity of one record, from the most severe (`Error`) to the most
/// detailed (`Trace`).
#[derive(Clone, Copy, Debug, PartialEq, Eq, Structural)]
pub enum Level {
    Error,
    Warn,
    Info,
    Debug,
    Trace,
}

/// A threshold on severities. `Off` admits no record at all.
#[derive(Clone, Copy, Debug, PartialEq, Eq, Structural)]
pub enum LevelFilter {
    Off,
    Error,
    Warn,
    Info,
    Debug,
    Trace,
}

impl Level {
    /// Position of the level in the order of severities: 1 for `Error`, up to
    /// 5 for `Trace`. A lower ordinal is more severe.
    pub open spec fn spec_ordinal(self) -> nat {
        match self {
            Level::Error => 1,
            Level::Warn => 2,
            Level::Info => 3,
            Level::Debug => 4,
            Level::Trace => 5,
        }
    }

    /// The upper-case name under which the level is printed.
    pub open spec fn name(self) -> Seq<char> {
        match self {
            Level::Error => "ERROR"@,
            Level::Warn => "WARN"@,
            Level::Info => "INFO"@,
            Level::Debug => "DEBUG"@,
            Level::Trace => "TRACE"@,
        }
    }

    pub fn ordinal(self) -> (n: usize)
        ensures
            n == self.spec_ordinal(),
            1 <= n <= 5,
    {
        match self {
            Level::Error => 1,
            Level::Warn => 2,
            Level::Info => 3,
            Level::Debug => 4,
            Level::Trace => 5,
        }
    }

    /// The printed name of the level, as the `log` crate gives it.
    pub fn as_str(self) -> (name: &'static str)
        ensures
            name@ == self.name(),
    {
        level_name(self)
    }
}

impl LevelFilter {
    /// Position of the threshold: 0 for `Off`, then as the level of the same
    /// name.
    pub open spec fn spec_ordinal(self) -> nat {
        match self {
            LevelFilter::Off => 0,
            LevelFilter::Error => 1,
            LevelFilter::Warn => 2,
            LevelFilter::Info => 3,
            LevelFilter::Debug => 4,
            LevelFilter::Trace => 5,
        }
    }

    /// Whether a record of severity `level` passes this threshold: the
    /// threshold is not `Off`, and the record is at least as severe as it.
    pub open spec fn spec_admits(self, level: Level) -> bool {
        self != LevelFilter::Off && level.spec_ordinal() <= self.spec_ordinal()
    }

    pub fn ordinal(self) -> (n: usize)
        ensures
            n == self.spec_ordinal(),
            n <= 5,
    {
        match self {
            LevelFilter::Off => 0,
            LevelFilter::Error => 1,
            LevelFilter::Warn => 2,
            LevelFilter::Info => 3,
            LevelFilter::Debug => 4,
            LevelFilter::Trace => 5,
        }
    }

    #[verifier::when_used_as_spec(spec_admits)]
    pub fn admits(self, level: Level) -> (yes: bool)
        ensures
            yes == self.spec_admits(level),
    {
        let threshold: usize = self.ordinal();
        threshold != 0 && level.ordinal() <= threshold
    }
}

/// Calls `log::Level::as_str` on the `log` level of the same name. Trusted,
/// not proved: the call returns that level's entry in the table of names of
/// `log`, which is `ERROR`, `WARN`, `INFO`, `DEBUG` or `TRACE`.
#[verifier::external_body]
fn level_name(level: Level) -> (name: &'static str)
    ensures
        name@ == level.name(),
{
    let outside = match level {
        Level::Error => log::Level::Error,
        Level::Warn => log::Level::Warn,
        Level::Info => log::Level::Info,
        Level::Debug => log::Level::Debug,
        Level::Trace => log::Level::Trace,
    };
    outside.as_str()
}

/// A threshold set to `Off` admits no record, whatever its severity.
pub proof fn lemma_off_admits_nothing(level: Level)
    ensures
        !LevelFilter::Off.spec_admits(level),
{
}

} // verus!
