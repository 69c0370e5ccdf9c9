//! Severity levels of captured events.

use vstd::prelude::*;
use crate::opentelclient::SeverityNumber;

verus! {

/// The verbosity level of an event, from the most verbose (`Trace`) to the
/// most severe (`Error`).
#[derive(Clone, Copy, Debug, PartialEq, Eq, Structural)]
pub enum Level {
    Trace,
    Debug,
    Info,
    Warn,
    Error,
}

impl Level {
    /// The severity in the log data model that the level stands for: the
    /// first step of the grade of the same name.
    pub open spec fn severity(self) -> SeverityNumber {
        match self {
            Level::Trace => SeverityNumber::Trace,
            Level::Debug => SeverityNumber::Debug,
            Level::Info => SeverityNumber::Info,
            Level::Warn => SeverityNumber::Warn,
            Level::Error => SeverityNumber::Error,
        }
    }

    /// The severity ordinal that a record of this level carries: 1 for
    /// `Trace`, 5 for `Debug`, 9 for `Info`, 13 for `Warn`, 17 for `Error`.
    pub open spec fn ordinal(self) -> int {
        match self {
            Level::Trace => 1,
            Level::Debug => 5,
            Level::Info => 9,
            Level::Warn => 13,
            Level::Error => 17,
        }
    }

    /// The text by which the level is known at its source.
    pub open spec fn label(self) -> Seq<char> {
        match self {
            Level::Trace => "TRACE"@,
            Level::Debug => "DEBUG"@,
            Level::Info => "INFO"@,
            Level::Warn => "WARN"@,
            Level::Error => "ERROR"@,
        }
    }

    /// Whether events of this level are forwarded to the collector: exactly
    /// those at `Info` or above.
    pub open spec fn forwarded(self) -> bool {
        self.ordinal() >= Level::Info.ordinal()
    }

    /// Returns the severity that the level stands for.
    pub fn to_severity(self) -> (severity: SeverityNumber)
        ensures
            severity == self.severity(),
    {
        match self {
            Level::Trace => SeverityNumber::Trace,
            Level::Debug => SeverityNumber::Debug,
            Level::Info => SeverityNumber::Info,
            Level::Warn => SeverityNumber::Warn,
            Level::Error => SeverityNumber::Error,
        }
    }

    /// Returns the severity ordinal of the level.
    pub fn severity_number(self) -> (n: i32)
        ensures
            n == self.ordinal(),
            n == self.severity().ordinal(),
    {
        self.to_severity().number()
    }

    /// Tells whether events of this level are forwarded.
    pub fn is_forwarded(self) -> (b: bool)
        ensures
            b == self.forwarded(),
    {
        self.severity_number() >= Level::Info.severity_number()
    }
}

/// The more severe of two levels has the larger ordinal, and the ordinal of
/// a level is the number of its severity.
pub proof fn lemma_ordinals_ascend()
    ensures
        Level::Trace.ordinal() < Level::Debug.ordinal() < Level::Info.ordinal()
            < Level::Warn.ordinal() < Level::Error.ordinal(),
        forall|level: Level| level.ordinal() == level.severity().ordinal(),
        forall|level: Level|
            level.forwarded() <==> level == Level::Info || level == Level::Warn || level
                == Level::Error,
{
}

/// Renders a level with `tracing_core::Level`'s `Display` implementation.
///
/// Trusted: that implementation writes the level's upper-case name (`TRACE`,
/// `DEBUG`, `INFO`, `WARN` or `ERROR`) and nothing else.
#[verifier::external_body]
pub(crate) fn display_level(level: Level) -> (text: String)
    ensures
        text@ == level.label(),
{
    let outside = match level {
        Level::Trace => tracing_core::Level::TRACE,
        Level::Debug => tracing_core::Level::DEBUG,
        Level::Info => tracing_core::Level::INFO,
        Level::Warn => tracing_core::Level::WARN,
        Level::Error => tracing_core::Level::ERROR,
    };
    outside.to_string()
}

} // verus!
