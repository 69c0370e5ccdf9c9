//! Severity numbers of the log data model.

use vstd::prelude::*;
use super::text::same_text;

verus! {

/// The severity of a log record: six grades, the five above `Unspecified`
/// in four steps each.
#[derive(Clone, Copy, Debug, PartialEq, Eq, Hash, Structural)]
pub enum SeverityNumber {
    /// The default, which says nothing of the severity.
    Unspecified,
    Trace,
    Trace2,
    Trace3,
    Trace4,
    Debug,
    Debug2,
    Debug3,
    Debug4,
    Info,
    Info2,
    Info3,
    Info4,
    Warn,
    Warn2,
    Warn3,
    Warn4,
    Error,
    Error2,
    Error3,
    Error4,
    Fatal,
    Fatal2,
    Fatal3,
    Fatal4,
}

impl SeverityNumber {
    /// The number by which the severity is exported.
    pub open spec fn ordinal(self) -> int {
        match self {
            SeverityNumber::Unspecified => 0,
            SeverityNumber::Trace => 1,
            SeverityNumber::Trace2 => 2,
            SeverityNumber::Trace3 => 3,
            SeverityNumber::Trace4 => 4,
            SeverityNumber::Debug => 5,
            SeverityNumber::Debug2 => 6,
            SeverityNumber::Debug3 => 7,
            SeverityNumber::Debug4 => 8,
            SeverityNumber::Info => 9,
            SeverityNumber::Info2 => 10,
            SeverityNumber::Info3 => 11,
            SeverityNumber::Info4 => 12,
            SeverityNumber::Warn => 13,
            SeverityNumber::Warn2 => 14,
            SeverityNumber::Warn3 => 15,
            SeverityNumber::Warn4 => 16,
            SeverityNumber::Error => 17,
            SeverityNumber::Error2 => 18,
            SeverityNumber::Error3 => 19,
            SeverityNumber::Error4 => 20,
            SeverityNumber::Fatal => 21,
            SeverityNumber::Fatal2 => 22,
            SeverityNumber::Fatal3 => 23,
            SeverityNumber::Fatal4 => 24,
        }
    }

    /// The name of the severity in the log schema.
    pub open spec fn name(self) -> Seq<char> {
        match self {
            SeverityNumber::Unspecified => "SEVERITY_NUMBER_UNSPECIFIED"@,
            SeverityNumber::Trace => "SEVERITY_NUMBER_TRACE"@,
            SeverityNumber::Trace2 => "SEVERITY_NUMBER_TRACE2"@,
            SeverityNumber::Trace3 => "SEVERITY_NUMBER_TRACE3"@,
            SeverityNumber::Trace4 => "SEVERITY_NUMBER_TRACE4"@,
            SeverityNumber::Debug => "SEVERITY_NUMBER_DEBUG"@,
            SeverityNumber::Debug2 => "SEVERITY_NUMBER_DEBUG2"@,
            SeverityNumber::Debug3 => "SEVERITY_NUMBER_DEBUG3"@,
            SeverityNumber::Debug4 => "SEVERITY_NUMBER_DEBUG4"@,
            SeverityNumber::Info => "SEVERITY_NUMBER_INFO"@,
            SeverityNumber::Info2 => "SEVERITY_NUMBER_INFO2"@,
            SeverityNumber::Info3 => "SEVERITY_NUMBER_INFO3"@,
            SeverityNumber::Info4 => "SEVERITY_NUMBER_INFO4"@,
            SeverityNumber::Warn => "SEVERITY_NUMBER_WARN"@,
            SeverityNumber::Warn2 => "SEVERITY_NUMBER_WARN2"@,
            SeverityNumber::Warn3 => "SEVERITY_NUMBER_WARN3"@,
            SeverityNumber::Warn4 => "SEVERITY_NUMBER_WARN4"@,
            SeverityNumber::Error => "SEVERITY_NUMBER_ERROR"@,
            SeverityNumber::Error2 => "SEVERITY_NUMBER_ERROR2"@,
            SeverityNumber::Error3 => "SEVERITY_NUMBER_ERROR3"@,
            SeverityNumber::Error4 => "SEVERITY_NUMBER_ERROR4"@,
            SeverityNumber::Fatal => "SEVERITY_NUMBER_FATAL"@,
            SeverityNumber::Fatal2 => "SEVERITY_NUMBER_FATAL2"@,
            SeverityNumber::Fatal3 => "SEVERITY_NUMBER_FATAL3"@,
            SeverityNumber::Fatal4 => "SEVERITY_NUMBER_FATAL4"@,
        }
    }

    /// Returns the number by which the severity is exported.
    pub fn number(&self) -> (n: i32)
        ensures
            n == self.ordinal(),
    {
        match self {
            SeverityNumber::Unspecified => 0,
            SeverityNumber::Trace => 1,
            SeverityNumber::Trace2 => 2,
            SeverityNumber::Trace3 => 3,
            SeverityNumber::Trace4 => 4,
            SeverityNumber::Debug => 5,
            SeverityNumber::Debug2 => 6,
            SeverityNumber::Debug3 => 7,
            SeverityNumber::Debug4 => 8,
            SeverityNumber::Info => 9,
            SeverityNumber::Info2 => 10,
            SeverityNumber::Info3 => 11,
            SeverityNumber::Info4 => 12,
            SeverityNumber::Warn => 13,
            SeverityNumber::Warn2 => 14,
            SeverityNumber::Warn3 => 15,
            SeverityNumber::Warn4 => 16,
            SeverityNumber::Error => 17,
            SeverityNumber::Error2 => 18,
            SeverityNumber::Error3 => 19,
            SeverityNumber::Error4 => 20,
            SeverityNumber::Fatal => 21,
            SeverityNumber::Fatal2 => 22,
            SeverityNumber::Fatal3 => 23,
            SeverityNumber::Fatal4 => 24,
        }
    }

    /// Returns the name of the severity in the log schema.
    pub fn as_str_name(&self) -> (name: &'static str)
        ensures
            name@ == self.name(),
    {
        match self {
            SeverityNumber::Unspecified => "SEVERITY_NUMBER_UNSPECIFIED",
            SeverityNumber::Trace => "SEVERITY_NUMBER_TRACE",
            SeverityNumber::Trace2 => "SEVERITY_NUMBER_TRACE2",
            SeverityNumber::Trace3 => "SEVERITY_NUMBER_TRACE3",
            SeverityNumber::Trace4 => "SEVERITY_NUMBER_TRACE4",
            SeverityNumber::Debug => "SEVERITY_NUMBER_DEBUG",
            SeverityNumber::Debug2 => "SEVERITY_NUMBER_DEBUG2",
            SeverityNumber::Debug3 => "SEVERITY_NUMBER_DEBUG3",
            SeverityNumber::Debug4 => "SEVERITY_NUMBER_DEBUG4",
            SeverityNumber::Info => "SEVERITY_NUMBER_INFO",
            SeverityNumber::Info2 => "SEVERITY_NUMBER_INFO2",
            SeverityNumber::Info3 => "SEVERITY_NUMBER_INFO3",
            SeverityNumber::Info4 => "SEVERITY_NUMBER_INFO4",
            SeverityNumber::Warn => "SEVERITY_NUMBER_WARN",
            SeverityNumber::Warn2 => "SEVERITY_NUMBER_WARN2",
            SeverityNumber::Warn3 => "SEVERITY_NUMBER_WARN3",
            SeverityNumber::Warn4 => "SEVERITY_NUMBER_WARN4",
            SeverityNumber::Error => "SEVERITY_NUMBER_ERROR",
            SeverityNumber::Error2 => "SEVERITY_NUMBER_ERROR2",
            SeverityNumber::Error3 => "SEVERITY_NUMBER_ERROR3",
            SeverityNumber::Error4 => "SEVERITY_NUMBER_ERROR4",
            SeverityNumber::Fatal => "SEVERITY_NUMBER_FATAL",
            SeverityNumber::Fatal2 => "SEVERITY_NUMBER_FATAL2",
            SeverityNumber::Fatal3 => "SEVERITY_NUMBER_FATAL3",
            SeverityNumber::Fatal4 => "SEVERITY_NUMBER_FATAL4",
        }
    }

    /// The severity that the schema calls `name`, if there is one.
    pub open spec fn named(name: Seq<char>) -> Option<SeverityNumber> {
        if exists|severity: SeverityNumber| severity.name() == name {
            Some(choose|severity: SeverityNumber| severity.name() == name)
        } else {
            None
        }
    }

    /// Returns the severity that the schema calls `value`, if there is one.
    pub fn from_str_name(value: &str) -> (found: Option<Self>)
        ensures
            found == SeverityNumber::named(value@),
    {
        if same_text(value, "SEVERITY_NUMBER_UNSPECIFIED") {
            proof {
                lemma_severity_is_named(SeverityNumber::Unspecified);
            }
            Some(SeverityNumber::Unspecified)
        } else if same_text(value, "SEVERITY_NUMBER_TRACE") {
            proof {
                lemma_severity_is_named(SeverityNumber::Trace);
            }
            Some(SeverityNumber::Trace)
        } else if same_text(value, "SEVERITY_NUMBER_TRACE2") {
            proof {
                lemma_severity_is_named(SeverityNumber::Trace2);
            }
            Some(SeverityNumber::Trace2)
        } else if same_text(value, "SEVERITY_NUMBER_TRACE3") {
            proof {
                lemma_severity_is_named(SeverityNumber::Trace3);
            }
            Some(SeverityNumber::Trace3)
        } else if same_text(value, "SEVERITY_NUMBER_TRACE4") {
            proof {
                lemma_severity_is_named(SeverityNumber::Trace4);
            }
            Some(SeverityNumber::Trace4)
        } else if same_text(value, "SEVERITY_NUMBER_DEBUG") {
            proof {
                lemma_severity_is_named(SeverityNumber::Debug);
            }
            Some(SeverityNumber::Debug)
        } else if same_text(value, "SEVERITY_NUMBER_DEBUG2") {
            proof {
                lemma_severity_is_named(SeverityNumber::Debug2);
            }
            Some(SeverityNumber::Debug2)
        } else if same_text(value, "SEVERITY_NUMBER_DEBUG3") {
            proof {
                lemma_severity_is_named(SeverityNumber::Debug3);
            }
            Some(SeverityNumber::Debug3)
        } else if same_text(value, "SEVERITY_NUMBER_DEBUG4") {
            proof {
                lemma_severity_is_named(SeverityNumber::Debug4);
            }
            Some(SeverityNumber::Debug4)
        } else if same_text(value, "SEVERITY_NUMBER_INFO") {
            proof {
                lemma_severity_is_named(SeverityNumber::Info);
            }
            Some(SeverityNumber::Info)
        } else if same_text(value, "SEVERITY_NUMBER_INFO2") {
            proof {
                lemma_severity_is_named(SeverityNumber::Info2);
            }
            Some(SeverityNumber::Info2)
        } else if same_text(value, "SEVERITY_NUMBER_INFO3") {
            proof {
                lemma_severity_is_named(SeverityNumber::Info3);
            }
            Some(SeverityNumber::Info3)
        } else if same_text(value, "SEVERITY_NUMBER_INFO4") {
            proof {
                lemma_severity_is_named(SeverityNumber::Info4);
            }
            Some(SeverityNumber::Info4)
        } else if same_text(value, "SEVERITY_NUMBER_WARN") {
            proof {
                lemma_severity_is_named(SeverityNumber::Warn);
            }
            Some(SeverityNumber::Warn)
        } else if same_text(value, "SEVERITY_NUMBER_WARN2") {
            proof {
                lemma_severity_is_named(SeverityNumber::Warn2);
            }
            Some(SeverityNumber::Warn2)
        } else if same_text(value, "SEVERITY_NUMBER_WARN3") {
            proof {
                lemma_severity_is_named(SeverityNumber::Warn3);
            }
            Some(SeverityNumber::Warn3)
        } else if same_text(value, "SEVERITY_NUMBER_WARN4") {
            proof {
                lemma_severity_is_named(SeverityNumber::Warn4);
            }
            Some(SeverityNumber::Warn4)
        } else if same_text(value, "SEVERITY_NUMBER_ERROR") {
            proof {
                lemma_severity_is_named(SeverityNumber::Error);
            }
            Some(SeverityNumber::Error)
        } else if same_text(value, "SEVERITY_NUMBER_ERROR2") {
            proof {
                lemma_severity_is_named(SeverityNumber::Error2);
            }
            Some(SeverityNumber::Error2)
        } else if same_text(value, "SEVERITY_NUMBER_ERROR3") {
            proof {
                lemma_severity_is_named(SeverityNumber::Error3);
            }
            Some(SeverityNumber::Error3)
        } else if same_text(value, "SEVERITY_NUMBER_ERROR4") {
            proof {
                lemma_severity_is_named(SeverityNumber::Error4);
            }
            Some(SeverityNumber::Error4)
        } else if same_text(value, "SEVERITY_NUMBER_FATAL") {
            proof {
                lemma_severity_is_named(SeverityNumber::Fatal);
            }
            Some(SeverityNumber::Fatal)
        } else if same_text(value, "SEVERITY_NUMBER_FATAL2") {
            proof {
                lemma_severity_is_named(SeverityNumber::Fatal2);
            }
            Some(SeverityNumber::Fatal2)
        } else if same_text(value, "SEVERITY_NUMBER_FATAL3") {
            proof {
                lemma_severity_is_named(SeverityNumber::Fatal3);
            }
            Some(SeverityNumber::Fatal3)
        } else if same_text(value, "SEVERITY_NUMBER_FATAL4") {
            proof {
                lemma_severity_is_named(SeverityNumber::Fatal4);
            }
            Some(SeverityNumber::Fatal4)
        } else {
            assert forall|severity: SeverityNumber| severity.name() != value@ by {
                match severity {
                    SeverityNumber::Unspecified => {},
                    SeverityNumber::Trace => {},
                    SeverityNumber::Trace2 => {},
                    SeverityNumber::Trace3 => {},
                    SeverityNumber::Trace4 => {},
                    SeverityNumber::Debug => {},
                    SeverityNumber::Debug2 => {},
                    SeverityNumber::Debug3 => {},
                    SeverityNumber::Debug4 => {},
                    SeverityNumber::Info => {},
                    SeverityNumber::Info2 => {},
                    SeverityNumber::Info3 => {},
                    SeverityNumber::Info4 => {},
                    SeverityNumber::Warn => {},
                    SeverityNumber::Warn2 => {},
                    SeverityNumber::Warn3 => {},
                    SeverityNumber::Warn4 => {},
                    SeverityNumber::Error => {},
                    SeverityNumber::Error2 => {},
                    SeverityNumber::Error3 => {},
                    SeverityNumber::Error4 => {},
                    SeverityNumber::Fatal => {},
                    SeverityNumber::Fatal2 => {},
                    SeverityNumber::Fatal3 => {},
                    SeverityNumber::Fatal4 => {},
                }
            }
            None
        }
    }
}

/// What tells the names of two severities apart: the first character
/// after the common prefix, the length, and the last character.
spec fn name_key(name: Seq<char>) -> (char, nat, char) {
    (name[16], name.len(), name.last())
}

/// The key of each severity's name.
spec fn severity_key(severity: SeverityNumber) -> (char, nat, char) {
    match severity {
        SeverityNumber::Unspecified => ('U', 27, 'D'),
        SeverityNumber::Trace => ('T', 21, 'E'),
        SeverityNumber::Trace2 => ('T', 22, '2'),
        SeverityNumber::Trace3 => ('T', 22, '3'),
        SeverityNumber::Trace4 => ('T', 22, '4'),
        SeverityNumber::Debug => ('D', 21, 'G'),
        SeverityNumber::Debug2 => ('D', 22, '2'),
        SeverityNumber::Debug3 => ('D', 22, '3'),
        SeverityNumber::Debug4 => ('D', 22, '4'),
        SeverityNumber::Info => ('I', 20, 'O'),
        SeverityNumber::Info2 => ('I', 21, '2'),
        SeverityNumber::Info3 => ('I', 21, '3'),
        SeverityNumber::Info4 => ('I', 21, '4'),
        SeverityNumber::Warn => ('W', 20, 'N'),
        SeverityNumber::Warn2 => ('W', 21, '2'),
        SeverityNumber::Warn3 => ('W', 21, '3'),
        SeverityNumber::Warn4 => ('W', 21, '4'),
        SeverityNumber::Error => ('E', 21, 'R'),
        SeverityNumber::Error2 => ('E', 22, '2'),
        SeverityNumber::Error3 => ('E', 22, '3'),
        SeverityNumber::Error4 => ('E', 22, '4'),
        SeverityNumber::Fatal => ('F', 21, 'L'),
        SeverityNumber::Fatal2 => ('F', 22, '2'),
        SeverityNumber::Fatal3 => ('F', 22, '3'),
        SeverityNumber::Fatal4 => ('F', 22, '4'),
    }
}

proof fn lemma_name_key(severity: SeverityNumber)
    ensures
        name_key(severity.name()) == severity_key(severity),
{
    reveal_strlit("SEVERITY_NUMBER_UNSPECIFIED");
    reveal_strlit("SEVERITY_NUMBER_TRACE");
    reveal_strlit("SEVERITY_NUMBER_TRACE2");
    reveal_strlit("SEVERITY_NUMBER_TRACE3");
    reveal_strlit("SEVERITY_NUMBER_TRACE4");
    reveal_strlit("SEVERITY_NUMBER_DEBUG");
    reveal_strlit("SEVERITY_NUMBER_DEBUG2");
    reveal_strlit("SEVERITY_NUMBER_DEBUG3");
    reveal_strlit("SEVERITY_NUMBER_DEBUG4");
    reveal_strlit("SEVERITY_NUMBER_INFO");
    reveal_strlit("SEVERITY_NUMBER_INFO2");
    reveal_strlit("SEVERITY_NUMBER_INFO3");
    reveal_strlit("SEVERITY_NUMBER_INFO4");
    reveal_strlit("SEVERITY_NUMBER_WARN");
    reveal_strlit("SEVERITY_NUMBER_WARN2");
    reveal_strlit("SEVERITY_NUMBER_WARN3");
    reveal_strlit("SEVERITY_NUMBER_WARN4");
    reveal_strlit("SEVERITY_NUMBER_ERROR");
    reveal_strlit("SEVERITY_NUMBER_ERROR2");
    reveal_strlit("SEVERITY_NUMBER_ERROR3");
    reveal_strlit("SEVERITY_NUMBER_ERROR4");
    reveal_strlit("SEVERITY_NUMBER_FATAL");
    reveal_strlit("SEVERITY_NUMBER_FATAL2");
    reveal_strlit("SEVERITY_NUMBER_FATAL3");
    reveal_strlit("SEVERITY_NUMBER_FATAL4");
}

/// No two severities share a name.
pub proof fn lemma_severity_names_differ(a: SeverityNumber, b: SeverityNumber)
    requires
        a.name() == b.name(),
    ensures
        a == b,
{
    lemma_name_key(a);
    lemma_name_key(b);
}

/// A severity is found again by its name.
pub proof fn lemma_severity_is_named(severity: SeverityNumber)
    ensures
        SeverityNumber::named(severity.name()) == Some(severity),
{
    let found = choose|other: SeverityNumber| other.name() == severity.name();
    lemma_severity_names_differ(found, severity);
}

/// No two severities share a number, and the numbers are those from 0 to 24.
pub proof fn lemma_severity_numbers_differ(a: SeverityNumber, b: SeverityNumber)
    ensures
        0 <= a.ordinal() <= 24,
        a.ordinal() == b.ordinal() ==> a == b,
{
}

} // verus!
