//! The bit masks by which a record's `flags` field is read.

use vstd::prelude::*;
use super::text::same_text;

verus! {

/// A mask for the `flags` field of a log record.
#[derive(Clone, Copy, Debug, PartialEq, Eq, Hash, Structural)]
pub enum LogRecordFlags {
    /// The zero value, which masks nothing.
    DoNotUse,
    /// The mask of the trace flags: the eight lowest bits.
    TraceFlagsMask,
}

impl LogRecordFlags {
    /// The mask as a number.
    pub open spec fn mask(self) -> int {
        match self {
            LogRecordFlags::DoNotUse => 0,
            LogRecordFlags::TraceFlagsMask => 255,
        }
    }

    /// The name of the mask in the log schema.
    pub open spec fn name(self) -> Seq<char> {
        match self {
            LogRecordFlags::DoNotUse => "LOG_RECORD_FLAGS_DO_NOT_USE"@,
            LogRecordFlags::TraceFlagsMask => "LOG_RECORD_FLAGS_TRACE_FLAGS_MASK"@,
        }
    }

    /// Returns the mask as a number.
    pub fn number(&self) -> (n: i32)
        ensures
            n == self.mask(),
    {
        match self {
            LogRecordFlags::DoNotUse => 0,
            LogRecordFlags::TraceFlagsMask => 255,
        }
    }

    /// Returns the name of the mask in the log schema.
    pub fn as_str_name(&self) -> (name: &'static str)
        ensures
            name@ == self.name(),
    {
        match self {
            LogRecordFlags::DoNotUse => "LOG_RECORD_FLAGS_DO_NOT_USE",
            LogRecordFlags::TraceFlagsMask => "LOG_RECORD_FLAGS_TRACE_FLAGS_MASK",
        }
    }

    /// The mask that the schema calls `name`, if there is one.
    pub open spec fn named(name: Seq<char>) -> Option<LogRecordFlags> {
        if exists|flags: LogRecordFlags| flags.name() == name {
            Some(choose|flags: LogRecordFlags| flags.name() == name)
        } else {
            None
        }
    }

    /// Returns the mask that the schema calls `value`, if there is one.
    pub fn from_str_name(value: &str) -> (found: Option<Self>)
        ensures
            found == LogRecordFlags::named(value@),
    {
        if same_text(value, "LOG_RECORD_FLAGS_DO_NOT_USE") {
            proof {
                lemma_flag_is_named(LogRecordFlags::DoNotUse);
            }
            Some(LogRecordFlags::DoNotUse)
        } else if same_text(value, "LOG_RECORD_FLAGS_TRACE_FLAGS_MASK") {
            proof {
                lemma_flag_is_named(LogRecordFlags::TraceFlagsMask);
            }
            Some(LogRecordFlags::TraceFlagsMask)
        } else {
            assert forall|flags: LogRecordFlags| flags.name() != value@ by {
                match flags {
                    LogRecordFlags::DoNotUse => {},
                    LogRecordFlags::TraceFlagsMask => {},
                }
            }
            None
        }
    }
}

/// The two masks have different names.
pub proof fn lemma_flag_names_differ(a: LogRecordFlags, b: LogRecordFlags)
    requires
        a.name() == b.name(),
    ensures
        a == b,
{
    reveal_strlit("LOG_RECORD_FLAGS_DO_NOT_USE");
    reveal_strlit("LOG_RECORD_FLAGS_TRACE_FLAGS_MASK");
    assert("LOG_RECORD_FLAGS_DO_NOT_USE"@.len() != "LOG_RECORD_FLAGS_TRACE_FLAGS_MASK"@.len());
}

/// A mask is found again by its name.
pub proof fn lemma_flag_is_named(flags: LogRecordFlags)
    ensures
        LogRecordFlags::named(flags.name()) == Some(flags),
{
    let found = choose|other: LogRecordFlags| other.name() == flags.name();
    lemma_flag_names_differ(found, flags);
}

} // verus!
