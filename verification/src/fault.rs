//! The failures that abort a call.
use vstd::prelude::*;

verus! {

/// Why a call was aborted. Every fault is a programming error of the host:
/// none is retried, and all of them reach the host as one failure signal.
#[derive(Clone, Copy, Debug, PartialEq, Eq, Structural)]
pub enum Fault {
    /// The handle was never issued, or its resource was destroyed already.
    UnknownHandle,
    /// The handle is live but names a resource of another kind.
    WrongResource,
    /// A mutation was attempted on an index attached to a snapshot.
    SnapshotModification,
    /// A positional overwrite named a position at or past the end of the list.
    IndexOutOfBounds,
    /// A range whose start lies after its end.
    IllegalRange,
    /// No further handle can be issued.
    HandlesExhausted,
}

impl Fault {
    /// The text carried by the failure signal for this fault.
    pub open spec fn spec_message(self) -> Seq<char> {
        match self {
            Fault::UnknownHandle => "Invalid handle value."@,
            Fault::WrongResource => "Wrong resource type for the handle."@,
            Fault::SnapshotModification => "Unable to modify snapshot."@,
            Fault::IndexOutOfBounds => "Index out of bounds."@,
            Fault::IllegalRange => "Illegal range boundaries."@,
            Fault::HandlesExhausted => "No handle left to issue."@,
        }
    }

    /// The text carried by the failure signal for this fault.
    pub fn message(self) -> (text: &'static str)
        ensures
            text@ == self.spec_message(),
    {
        match self {
            Fault::UnknownHandle => "Invalid handle value.",
            Fault::WrongResource => "Wrong resource type for the handle.",
            Fault::SnapshotModification => "Unable to modify snapshot.",
            Fault::IndexOutOfBounds => "Index out of bounds.",
            Fault::IllegalRange => "Illegal range boundaries.",
            Fault::HandlesExhausted => "No handle left to issue.",
        }
    }
}

} // verus!
