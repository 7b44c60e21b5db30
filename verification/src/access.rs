//! Access modes, resource kinds and the operations of the proxies.
use vstd::prelude::*;
use crate::fault::Fault;

verus! {

/// Whether a resource is attached to an immutable or to a mutable view.
/// The mode is fixed when the resource is registered and never changes.
#[derive(Clone, Copy, Debug, PartialEq, Eq, Structural)]
pub enum AccessMode {
    /// A point-in-time view: reads only.
    Snapshot,
    /// The working view: reads and mutations.
    Fork,
}

/// What a handle names.
#[derive(Clone, Copy, Debug, PartialEq, Eq, Structural)]
pub enum ResourceKind {
    /// A snapshot or a fork of the store.
    View,
    /// A single-value entry.
    Entry,
    /// A merkelized list.
    ProofList,
    /// A forward cursor over a merkelized list.
    ListIterator,
}

/// The operations of an entry.
#[derive(Clone, Copy, Debug, PartialEq, Eq, Structural)]
pub enum EntryOp {
    Get,
    IsPresent,
    /// Storing a value, over the present one if there is one.
    SetValue,
    Remove,
}

/// The operations of a proof list.
#[derive(Clone, Copy, Debug, PartialEq, Eq, Structural)]
pub enum ListOp {
    Get,
    GetLast,
    Pop,
    Truncate,
    IsEmpty,
    Length,
    Height,
    RootDigest,
    GetProof,
    GetRangeProof,
    CreateIterator,
    CreateIteratorFrom,
    Push,
    /// Overwriting the element at a position.
    SetAt,
    Clear,
}

/// An operation that the host asks for on a resource it holds a handle to.
#[derive(Clone, Copy, Debug, PartialEq, Eq, Structural)]
pub enum Operation {
    Entry(EntryOp),
    List(ListOp),
    /// Advancing a list iterator by one element.
    IteratorNext,
}

impl AccessMode {
    /// True exactly for the mutable mode.
    pub open spec fn spec_permits_mutation(self) -> bool {
        self == AccessMode::Fork
    }

    /// True exactly for the mutable mode.
    #[verifier::when_used_as_spec(spec_permits_mutation)]
    pub fn permits_mutation(self) -> (r: bool)
        ensures
            r == self.spec_permits_mutation(),
    {
        match self {
            AccessMode::Snapshot => false,
            AccessMode::Fork => true,
        }
    }
}

impl ResourceKind {
    /// The kind of resource that one of this kind is created from: indexes
    /// attach to a view, an iterator to a list, and a view to nothing.
    pub open spec fn spec_parent(self) -> Option<ResourceKind> {
        match self {
            ResourceKind::View => None,
            ResourceKind::Entry => Some(ResourceKind::View),
            ResourceKind::ProofList => Some(ResourceKind::View),
            ResourceKind::ListIterator => Some(ResourceKind::ProofList),
        }
    }

    /// The kind of resource that one of this kind is created from.
    #[verifier::when_used_as_spec(spec_parent)]
    pub fn parent(self) -> (r: Option<ResourceKind>)
        ensures
            r == self.spec_parent(),
    {
        match self {
            ResourceKind::View => None,
            ResourceKind::Entry => Some(ResourceKind::View),
            ResourceKind::ProofList => Some(ResourceKind::View),
            ResourceKind::ListIterator => Some(ResourceKind::ProofList),
        }
    }
}

impl EntryOp {
    /// True for the operations that change the stored value.
    pub open spec fn spec_mutates(self) -> bool {
        self == EntryOp::SetValue || self == EntryOp::Remove
    }

    /// True for the operations that change the stored value.
    #[verifier::when_used_as_spec(spec_mutates)]
    pub fn mutates(self) -> (r: bool)
        ensures
            r == self.spec_mutates(),
    {
        match self {
            EntryOp::SetValue | EntryOp::Remove => true,
            EntryOp::Get | EntryOp::IsPresent => false,
        }
    }
}

impl ListOp {
    /// True for the operations that change the list.
    pub open spec fn spec_mutates(self) -> bool {
        self == ListOp::Push || self == ListOp::SetAt || self == ListOp::Pop
            || self == ListOp::Truncate || self == ListOp::Clear
    }

    /// True for the operations that change the list.
    #[verifier::when_used_as_spec(spec_mutates)]
    pub fn mutates(self) -> (r: bool)
        ensures
            r == self.spec_mutates(),
    {
        match self {
            ListOp::Push | ListOp::SetAt | ListOp::Pop | ListOp::Truncate | ListOp::Clear => true,
            ListOp::Get
            | ListOp::GetLast
            | ListOp::IsEmpty
            | ListOp::Length
            | ListOp::Height
            | ListOp::RootDigest
            | ListOp::GetProof
            | ListOp::GetRangeProof
            | ListOp::CreateIterator
            | ListOp::CreateIteratorFrom => false,
        }
    }
}

impl Operation {
    /// The kind of resource that the operation works on.
    pub open spec fn spec_target(self) -> ResourceKind {
        match self {
            Operation::Entry(_) => ResourceKind::Entry,
            Operation::List(_) => ResourceKind::ProofList,
            Operation::IteratorNext => ResourceKind::ListIterator,
        }
    }

    /// The kind of resource that the operation works on.
    #[verifier::when_used_as_spec(spec_target)]
    pub fn target(self) -> (r: ResourceKind)
        ensures
            r == self.spec_target(),
    {
        match self {
            Operation::Entry(_) => ResourceKind::Entry,
            Operation::List(_) => ResourceKind::ProofList,
            Operation::IteratorNext => ResourceKind::ListIterator,
        }
    }

    /// True for the operations that change what the store holds. Advancing an
    /// iterator moves a cursor and changes nothing in the store.
    pub open spec fn spec_mutates(self) -> bool {
        match self {
            Operation::Entry(op) => op.spec_mutates(),
            Operation::List(op) => op.spec_mutates(),
            Operation::IteratorNext => false,
        }
    }

    /// True for the operations that change what the store holds.
    #[verifier::when_used_as_spec(spec_mutates)]
    pub fn mutates(self) -> (r: bool)
        ensures
            r == self.spec_mutates(),
    {
        match self {
            Operation::Entry(op) => op.mutates(),
            Operation::List(op) => op.mutates(),
            Operation::IteratorNext => false,
        }
    }
}

/// What `check_access` answers: a mutation through a snapshot is refused,
/// everything else is allowed.
pub open spec fn access_verdict(mode: AccessMode, op: Operation) -> Result<(), Fault> {
    if op.spec_mutates() && mode == AccessMode::Snapshot {
        Err(Fault::SnapshotModification)
    } else {
        Ok(())
    }
}

/// The mutation guard: decides whether `op` may run on a resource of the
/// given mode. Reads pass in either mode; a mutation passes only on a fork.
pub fn check_access(mode: AccessMode, op: Operation) -> (r: Result<(), Fault>)
    ensures
        r == access_verdict(mode, op),
{
    if op.mutates() && !mode.permits_mutation() {
        Err(Fault::SnapshotModification)
    } else {
        Ok(())
    }
}

/// Every mutating operation is refused on a snapshot, whatever the resource.
pub proof fn lemma_snapshot_refuses_mutation(op: Operation)
    requires
        op.spec_mutates(),
    ensures
        access_verdict(AccessMode::Snapshot, op) == Err::<(), Fault>(Fault::SnapshotModification),
        access_verdict(AccessMode::Fork, op) == Ok::<(), Fault>(()),
{
}

/// No read is refused in either mode.
pub proof fn lemma_reads_pass_in_both_modes(mode: AccessMode, op: Operation)
    requires
        !op.spec_mutates(),
    ensures
        access_verdict(mode, op) == Ok::<(), Fault>(()),
{
}

/// The mutating operations are exactly: setting and removing an entry's
/// value; pushing, overwriting, popping, truncating and clearing a list.
pub proof fn lemma_mutating_operations(op: Operation)
    ensures
        op.spec_mutates() <==> (op == Operation::Entry(EntryOp::SetValue)
            || op == Operation::Entry(EntryOp::Remove)
            || op == Operation::List(ListOp::Push)
            || op == Operation::List(ListOp::SetAt)
            || op == Operation::List(ListOp::Pop)
            || op == Operation::List(ListOp::Truncate)
            || op == Operation::List(ListOp::Clear)),
{
}

} // verus!
