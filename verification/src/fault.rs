//! Fault records and the output sink that preserves them. The sink is
//! optional: a boot without one loses the record and halts all the same.

use vstd::prelude::*;

verus! {

/// Where in the source an unrecoverable condition was raised.
#[derive(Clone, Debug, PartialEq, Eq)]
pub struct SourceLocation {
    pub file: String,
    pub line: u32,
    pub column: u32,
}

/// Who ended the boot.
#[derive(Clone, Copy, Debug, PartialEq, Eq, Structural)]
pub enum FaultCause {
    /// Code raised an unrecoverable condition: a panic or a failed assertion.
    Software,
    /// The processor trapped, with the cause code that it reported.
    Hardware { code: u32 },
    /// The main routine returned, which it must never do.
    MainReturned,
}

/// A best-effort description of why execution ended.
#[derive(Clone, Debug, PartialEq, Eq)]
pub struct FaultRecord {
    pub cause: FaultCause,
    pub location: Option<SourceLocation>,
    pub message: Option<String>,
}

impl FaultRecord {
    /// The record of a software condition raised with `message` at `location`.
    pub fn software(message: Option<String>, location: Option<SourceLocation>) -> (r: FaultRecord)
        ensures
            r == (FaultRecord { cause: FaultCause::Software, location, message }),
    {
        FaultRecord { cause: FaultCause::Software, location, message }
    }

    /// The record of a hardware trap that reported `code`.
    pub fn hardware(code: u32) -> (r: FaultRecord)
        ensures
            r == (FaultRecord {
                cause: FaultCause::Hardware { code },
                location: None,
                message: None,
            }),
    {
        FaultRecord { cause: FaultCause::Hardware { code }, location: None, message: None }
    }

    /// The record that the dispatcher files when the main routine returns.
    pub open spec fn main_returned() -> FaultRecord {
        FaultRecord { cause: FaultCause::MainReturned, location: None, message: None }
    }

    /// Builds the record `main_returned()`.
    pub fn for_main_returned() -> (r: FaultRecord)
        ensures
            r == FaultRecord::main_returned(),
    {
        FaultRecord { cause: FaultCause::MainReturned, location: None, message: None }
    }
}

/// Where fault records go. `Absent` stands for a system without any output:
/// it has nowhere to keep a record. `Slot` keeps the last record reported.
#[derive(Clone, Debug, PartialEq, Eq)]
pub enum OutputSink {
    Absent,
    Slot(Option<FaultRecord>),
}

impl OutputSink {
    /// Whether the system has a sink at all.
    pub open spec fn present(self) -> bool {
        self is Slot
    }

    /// The record that the sink holds, if it holds one.
    pub open spec fn captured(self) -> Option<FaultRecord> {
        match self {
            OutputSink::Absent => None,
            OutputSink::Slot(record) => record,
        }
    }

    /// The sink after `record` has been reported to it.
    pub open spec fn after_report(self, record: Option<FaultRecord>) -> OutputSink {
        match self {
            OutputSink::Absent => OutputSink::Absent,
            OutputSink::Slot(_) => OutputSink::Slot(record),
        }
    }

    /// An empty sink, or none.
    pub fn new(present: bool) -> (sink: OutputSink)
        ensures
            sink.present() == present,
            sink.captured() is None,
    {
        if present {
            OutputSink::Slot(None)
        } else {
            OutputSink::Absent
        }
    }

    /// Hands a record to the sink. Never blocks and never fails: without a
    /// sink the record is dropped.
    pub fn report(&mut self, record: Option<FaultRecord>)
        ensures
            *final(self) == old(self).after_report(record),
            final(self).present() == old(self).present(),
            final(self).captured() == if old(self).present() {
                record
            } else {
                None
            },
        no_unwind
    {
        match self {
            OutputSink::Absent => {},
            OutputSink::Slot(slot) => {
                *slot = record;
            },
        }
    }

    pub fn is_present(&self) -> (b: bool)
        ensures
            b == self.present(),
    {
        match self {
            OutputSink::Absent => false,
            OutputSink::Slot(_) => true,
        }
    }

    /// The record that the sink holds.
    pub fn record(&self) -> (r: Option<&FaultRecord>)
        ensures
            match r {
                Some(record) => self.captured() == Some(*record),
                None => self.captured() is None,
            },
    {
        match self {
            OutputSink::Absent => None,
            OutputSink::Slot(slot) => slot.as_ref(),
        }
    }
}

} // verus!
