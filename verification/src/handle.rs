//! The handle registry: an arena that owns every native resource the host
//! can name, and hands out the opaque tokens it names them by.
use vstd::prelude::*;
use crate::access::{access_verdict, check_access, AccessMode, Operation, ResourceKind};
use crate::fault::Fault;

verus! {

/// An opaque token for one resource. Zero is the null handle: it is never
/// issued, so it can stand for "no handle" on the host's side.
pub type Handle = i64;

/// What the registry keeps under a handle.
#[derive(Clone, Debug)]
pub struct Slot<T> {
    /// What the resource is.
    pub kind: ResourceKind,
    /// The mode frozen into the resource when it was registered.
    pub mode: AccessMode,
    /// The native resource itself.
    pub resource: T,
}

/// A view of the store, tagged with what it allows.
#[derive(Debug, PartialEq, Eq)]
pub enum ViewRef<'a, T> {
    /// An immutable, point-in-time view.
    Snapshot(&'a T),
    /// The mutable working view.
    Fork(&'a T),
}

impl<'a, T> ViewRef<'a, T> {
    /// The mode that an index attached to this view gets.
    pub open spec fn spec_mode(&self) -> AccessMode {
        match *self {
            ViewRef::Snapshot(_) => AccessMode::Snapshot,
            ViewRef::Fork(_) => AccessMode::Fork,
        }
    }

    /// The mode that an index attached to this view gets.
    #[verifier::when_used_as_spec(spec_mode)]
    pub fn mode(&self) -> (r: AccessMode)
        ensures
            r == self.spec_mode(),
    {
        match self {
            ViewRef::Snapshot(_) => AccessMode::Snapshot,
            ViewRef::Fork(_) => AccessMode::Fork,
        }
    }

    /// The native view behind the tag.
    pub open spec fn spec_native(&self) -> T {
        match *self {
            ViewRef::Snapshot(native) => *native,
            ViewRef::Fork(native) => *native,
        }
    }

    /// The native view behind the tag.
    pub fn native(&self) -> (r: &'a T)
        ensures
            *r == self.spec_native(),
    {
        match self {
            ViewRef::Snapshot(native) => native,
            ViewRef::Fork(native) => native,
        }
    }
}

/// Maps handles to the resources they name.
///
/// Handles are issued in increasing order, starting at one, and a handle is
/// never issued twice: a slot that was emptied stays empty.
pub struct HandleRegistry<T> {
    slots: Vec<Option<Slot<T>>>,
    limit: u64,
}

/// What resolving `handle` as a resource of `kind` fails with, if it fails.
pub open spec fn resolve_fault<T>(
    live: Map<Handle, Slot<T>>,
    handle: Handle,
    kind: ResourceKind,
) -> Option<Fault> {
    if !live.contains_key(handle) {
        Some(Fault::UnknownHandle)
    } else if live[handle].kind != kind {
        Some(Fault::WrongResource)
    } else {
        None
    }
}

/// What authorizing `op` on `handle` fails with, if it fails: the handle is
/// looked at first, then the kind of its resource, then its mode.
pub open spec fn authorize_fault<T>(
    live: Map<Handle, Slot<T>>,
    handle: Handle,
    op: Operation,
) -> Option<Fault> {
    match resolve_fault(live, handle, op.spec_target()) {
        Some(fault) => Some(fault),
        None => match access_verdict(live[handle].mode, op) {
            Err(fault) => Some(fault),
            Ok(_) => None,
        },
    }
}

/// What attaching a resource of `kind` to `parent` fails with, if it fails
/// before a handle is asked for.
pub open spec fn attach_fault<T>(
    live: Map<Handle, Slot<T>>,
    parent: Handle,
    kind: ResourceKind,
) -> Option<Fault> {
    match kind.spec_parent() {
        None => Some(Fault::WrongResource),
        Some(parent_kind) => resolve_fault(live, parent, parent_kind),
    }
}

/// The largest number of handles that any registry can issue: as many as
/// there are positive handles, or as the machine can count slots for.
pub open spec fn handle_limit() -> nat {
    if usize::MAX < i64::MAX {
        usize::MAX as nat
    } else {
        i64::MAX as nat
    }
}

/// The handles among the first `n` issued whose slot still holds a resource.
spec fn occupied_before<T>(slots: Seq<Option<Slot<T>>>, n: int) -> Set<Handle> {
    Set::new(|h: Handle| 1 <= h <= n && h <= slots.len() && slots[h - 1] is Some)
}

/// Looking at one more slot adds its handle if the slot is occupied, and
/// nothing otherwise.
proof fn lemma_occupied_step<T>(slots: Seq<Option<Slot<T>>>, n: int)
    requires
        0 <= n < slots.len(),
        n < i64::MAX,
        occupied_before(slots, n).finite(),
    ensures
        occupied_before(slots, n + 1).finite(),
        occupied_before(slots, n + 1).len() == occupied_before(slots, n).len() + (if slots[n]
            is Some {
            1nat
        } else {
            0nat
        }),
{
    let next: Handle = (n + 1) as Handle;
    if slots[n] is Some {
        assert(occupied_before(slots, n + 1) =~= occupied_before(slots, n).insert(next));
        assert(!occupied_before(slots, n).contains(next));
    } else {
        assert(occupied_before(slots, n + 1) =~= occupied_before(slots, n));
    }
}

impl<T> HandleRegistry<T> {
    /// The live handles, each with what it names.
    pub closed spec fn view(&self) -> Map<Handle, Slot<T>> {
        Map::new(
            |h: Handle| 1 <= h <= self.slots@.len() && self.slots@[h - 1] is Some,
            |h: Handle| self.slots@[h - 1]->0,
        )
    }

    /// How many handles were issued so far, live or not.
    pub closed spec fn issued(&self) -> nat {
        self.slots@.len()
    }

    /// How many handles this registry issues at most.
    pub closed spec fn limit(&self) -> nat {
        if self.limit < handle_limit() {
            self.limit as nat
        } else {
            handle_limit()
        }
    }

    /// Every live handle is positive and was issued.
    pub proof fn lemma_live_handles_were_issued(&self, handle: Handle)
        requires
            self@.contains_key(handle),
        ensures
            1 <= handle <= self.issued(),
    {
    }

    /// A registry that has issued nothing and issues as many handles as
    /// there are.
    pub fn new() -> (registry: Self)
        ensures
            registry@ == Map::<Handle, Slot<T>>::empty(),
            registry.issued() == 0,
            registry.limit() == handle_limit(),
    {
        let registry = HandleRegistry { slots: Vec::new(), limit: u64::MAX };
        assert(registry@ =~= Map::<Handle, Slot<T>>::empty());
        registry
    }

    /// A registry that has issued nothing and issues at most `limit` handles
    /// in its lifetime.
    pub fn with_limit(limit: u64) -> (registry: Self)
        ensures
            registry@ == Map::<Handle, Slot<T>>::empty(),
            registry.issued() == 0,
            registry.limit() == (if limit < handle_limit() {
                limit as nat
            } else {
                handle_limit()
            }),
    {
        let registry = HandleRegistry { slots: Vec::new(), limit };
        assert(registry@ =~= Map::<Handle, Slot<T>>::empty());
        registry
    }

    /// The position of `handle` among the slots, if it was ever issued.
    fn position(&self, handle: Handle) -> (r: Option<usize>)
        ensures
            match r {
                Some(i) => 1 <= handle <= self.slots@.len() && i == handle - 1,
                None => !(1 <= handle <= self.slots@.len()),
            },
    {
        if handle < 1 {
            return None;
        }
        let offset: u64 = (handle - 1) as u64;
        let len: usize = self.slots.len();
        if offset >= len as u64 {
            return None;
        }
        Some(offset as usize)
    }

    /// Takes ownership of `resource` and issues a handle for it.
    ///
    /// The handle is one more than the number of handles issued before, so it
    /// differs from every handle this registry has ever returned. Fails only
    /// when the supply of handles is used up; the registry is then unchanged.
    pub fn create(&mut self, kind: ResourceKind, mode: AccessMode, resource: T) -> (r: Result<
        Handle,
        Fault,
    >)
        ensures
            match r {
                Ok(handle) => {
                    &&& old(self).issued() < old(self).limit()
                    &&& handle == old(self).issued() + 1
                    &&& !old(self)@.contains_key(handle)
                    &&& final(self).issued() == old(self).issued() + 1
                    &&& final(self)@ == old(self)@.insert(
                        handle,
                        (Slot { kind, mode, resource }),
                    )
                },
                Err(fault) => {
                    &&& old(self).issued() >= old(self).limit()
                    &&& fault == Fault::HandlesExhausted
                    &&& final(self)@ == old(self)@
                    &&& final(self).issued() == old(self).issued()
                },
            },
            final(self).limit() == old(self).limit(),
    {
        let len: usize = self.slots.len();
        if len >= usize::MAX || len as u64 >= i64::MAX as u64 || len as u64 >= self.limit {
            return Err(Fault::HandlesExhausted);
        }
        let handle: Handle = (len as u64 + 1) as i64;
        self.slots.push(Some(Slot { kind, mode, resource }));
        assert(final(self)@ =~= old(self)@.insert(handle, (Slot { kind, mode, resource })));
        Ok(handle)
    }

    /// Registers a resource created from the one that `parent` names: an
    /// index attached to a view, or an iterator over a list. The new resource
    /// gets the parent's mode, which stays with it for good.
    ///
    /// Fails, leaving the registry unchanged, when `kind` has no parent kind,
    /// when `parent` is not a live handle of that parent kind, or when no
    /// handle is left.
    pub fn attach(&mut self, parent: Handle, kind: ResourceKind, resource: T) -> (r: Result<
        Handle,
        Fault,
    >)
        ensures
            match r {
                Ok(handle) => {
                    &&& attach_fault(old(self)@, parent, kind) is None
                    &&& old(self).issued() < old(self).limit()
                    &&& handle == old(self).issued() + 1
                    &&& !old(self)@.contains_key(handle)
                    &&& final(self).issued() == old(self).issued() + 1
                    &&& final(self)@ == old(self)@.insert(
                        handle,
                        (Slot { kind, mode: old(self)@[parent].mode, resource }),
                    )
                },
                Err(fault) => {
                    &&& final(self)@ == old(self)@
                    &&& final(self).issued() == old(self).issued()
                    &&& match attach_fault(old(self)@, parent, kind) {
                        Some(expected) => fault == expected,
                        None => fault == Fault::HandlesExhausted && old(self).issued()
                            >= old(self).limit(),
                    }
                },
            },
            final(self).limit() == old(self).limit(),
    {
        let parent_kind = match kind.parent() {
            Some(parent_kind) => parent_kind,
            None => {
                return Err(Fault::WrongResource);
            },
        };
        let mode = match self.mode_of(parent, parent_kind) {
            Ok(mode) => mode,
            Err(fault) => {
                return Err(fault);
            },
        };
        self.create(kind, mode, resource)
    }

    /// The resource that `handle` names, if it is live and of the given kind.
    pub fn resolve(&self, handle: Handle, kind: ResourceKind) -> (r: Result<&T, Fault>)
        ensures
            match r {
                Ok(resource) => resolve_fault(self@, handle, kind) is None && *resource
                    == self@[handle].resource,
                Err(fault) => resolve_fault(self@, handle, kind) == Some(fault),
            },
    {
        let i = match self.position(handle) {
            Some(i) => i,
            None => {
                return Err(Fault::UnknownHandle);
            },
        };
        match &self.slots[i] {
            None => Err(Fault::UnknownHandle),
            Some(slot) => {
                if slot.kind == kind {
                    Ok(&slot.resource)
                } else {
                    Err(Fault::WrongResource)
                }
            },
        }
    }

    /// Exclusive access to the resource that `handle` names, if it is live
    /// and of the given kind. Whatever the caller does to the resource, the
    /// registry keeps the same handles, kinds and modes.
    pub fn resolve_mut(&mut self, handle: Handle, kind: ResourceKind) -> (r: Result<&mut T, Fault>)
        ensures
            final(self).issued() == old(self).issued(),
            final(self).limit() == old(self).limit(),
            match r {
                Ok(resource) => {
                    &&& resolve_fault(old(self)@, handle, kind) is None
                    &&& *resource == old(self)@[handle].resource
                    &&& final(self)@ == old(self)@.insert(
                        handle,
                        (Slot {
                            kind,
                            mode: old(self)@[handle].mode,
                            resource: *final(resource),
                        }),
                    )
                },
                Err(fault) => {
                    &&& resolve_fault(old(self)@, handle, kind) == Some(fault)
                    &&& final(self)@ == old(self)@
                },
            },
    {
        let i = match self.position(handle) {
            Some(i) => i,
            None => {
                return Err(Fault::UnknownHandle);
            },
        };
        match &mut self.slots[i] {
            None => Err(Fault::UnknownHandle),
            Some(slot) => {
                if slot.kind == kind {
                    Ok(&mut slot.resource)
                } else {
                    Err(Fault::WrongResource)
                }
            },
        }
    }

    /// Resolves a view handle to a tagged reference: a snapshot or a fork,
    /// as the view was registered.
    pub fn resolve_view(&self, handle: Handle) -> (r: Result<ViewRef<'_, T>, Fault>)
        ensures
            match r {
                Ok(view) => {
                    &&& resolve_fault(self@, handle, ResourceKind::View) is None
                    &&& view.spec_mode() == self@[handle].mode
                    &&& view.spec_native() == self@[handle].resource
                },
                Err(fault) => resolve_fault(self@, handle, ResourceKind::View) == Some(fault),
            },
    {
        let mode = match self.mode_of(handle, ResourceKind::View) {
            Ok(mode) => mode,
            Err(fault) => {
                return Err(fault);
            },
        };
        match self.resolve(handle, ResourceKind::View) {
            Ok(native) => match mode {
                AccessMode::Snapshot => Ok(ViewRef::Snapshot(native)),
                AccessMode::Fork => Ok(ViewRef::Fork(native)),
            },
            Err(fault) => Err(fault),
        }
    }

    /// The mode frozen into the resource that `handle` names, if it is live
    /// and of the given kind.
    pub fn mode_of(&self, handle: Handle, kind: ResourceKind) -> (r: Result<AccessMode, Fault>)
        ensures
            match r {
                Ok(mode) => resolve_fault(self@, handle, kind) is None && mode
                    == self@[handle].mode,
                Err(fault) => resolve_fault(self@, handle, kind) == Some(fault),
            },
    {
        let i = match self.position(handle) {
            Some(i) => i,
            None => {
                return Err(Fault::UnknownHandle);
            },
        };
        match &self.slots[i] {
            None => Err(Fault::UnknownHandle),
            Some(slot) => {
                if slot.kind == kind {
                    Ok(slot.mode)
                } else {
                    Err(Fault::WrongResource)
                }
            },
        }
    }

    /// Resolves `handle` for the operation `op`: the handle must be live, its
    /// resource of the kind that `op` works on, and, where `op` mutates, its
    /// mode must be the mutable one. The registry is not changed either way,
    /// so a refused mutation has touched nothing.
    pub fn authorize(&self, handle: Handle, op: Operation) -> (r: Result<&T, Fault>)
        ensures
            match r {
                Ok(resource) => authorize_fault(self@, handle, op) is None && *resource
                    == self@[handle].resource,
                Err(fault) => authorize_fault(self@, handle, op) == Some(fault),
            },
    {
        let mode = match self.mode_of(handle, op.target()) {
            Ok(mode) => mode,
            Err(fault) => {
                return Err(fault);
            },
        };
        match check_access(mode, op) {
            Ok(_) => self.resolve(handle, op.target()),
            Err(fault) => Err(fault),
        }
    }

    /// Removes the resource that `handle` names and gives it back to be
    /// dropped. The handle is dead from then on: a second call with it fails.
    pub fn destroy(&mut self, handle: Handle, kind: ResourceKind) -> (r: Result<T, Fault>)
        ensures
            final(self).issued() == old(self).issued(),
            final(self).limit() == old(self).limit(),
            match r {
                Ok(resource) => {
                    &&& resolve_fault(old(self)@, handle, kind) is None
                    &&& resource == old(self)@[handle].resource
                    &&& final(self)@ == old(self)@.remove(handle)
                },
                Err(fault) => {
                    &&& resolve_fault(old(self)@, handle, kind) == Some(fault)
                    &&& final(self)@ == old(self)@
                },
            },
    {
        let i = match self.position(handle) {
            Some(i) => i,
            None => {
                return Err(Fault::UnknownHandle);
            },
        };
        let matches_kind = match &self.slots[i] {
            None => {
                return Err(Fault::UnknownHandle);
            },
            Some(slot) => slot.kind == kind,
        };
        if !matches_kind {
            return Err(Fault::WrongResource);
        }
        let taken = self.slots[i].take();
        assert(final(self)@ =~= old(self)@.remove(handle));
        match taken {
            Some(slot) => Ok(slot.resource),
            None => Err(Fault::UnknownHandle),
        }
    }

    /// How many handles are live. A host that has freed all it created
    /// leaves this at zero; anything else is a leak.
    pub fn live_count(&self) -> (count: usize)
        ensures
            self@.dom().finite(),
            count == self@.dom().len(),
    {
        proof {
            assert(occupied_before(self.slots@, 0) =~= Set::<Handle>::empty());
        }
        let mut count: usize = 0;
        let mut i: usize = 0;
        while i < self.slots.len() && (i as u64) < 0x7fff_ffff_ffff_ffffu64
            invariant
                i <= self.slots@.len(),
                i <= i64::MAX,
                count <= i,
                count == occupied_before(self.slots@, i as int).len(),
                occupied_before(self.slots@, i as int).finite(),
            decreases self.slots@.len() - i,
        {
            proof {
                lemma_occupied_step(self.slots@, i as int);
            }
            if self.slots[i].is_some() {
                count = count + 1;
            }
            i = i + 1;
        }
        assert(self@.dom() =~= occupied_before(self.slots@, i as int));
        count
    }

    /// True if `handle` names a resource at present.
    pub fn is_live(&self, handle: Handle) -> (r: bool)
        ensures
            r == self@.contains_key(handle),
    {
        match self.position(handle) {
            Some(i) => self.slots[i].is_some(),
            None => false,
        }
    }
}

/// An index or iterator attached to a snapshot refuses every mutation of its
/// kind: the mode it got from its parent decides, and authorizing does not
/// change the registry.
pub proof fn lemma_attached_to_snapshot_refuses_mutation<T>(
    live: Map<Handle, Slot<T>>,
    parent: Handle,
    handle: Handle,
    kind: ResourceKind,
    resource: T,
    op: Operation,
)
    requires
        attach_fault(live, parent, kind) is None,
        live[parent].mode == AccessMode::Snapshot,
        op.spec_target() == kind,
        op.spec_mutates(),
    ensures
        authorize_fault(
            live.insert(handle, (Slot { kind, mode: live[parent].mode, resource })),
            handle,
            op,
        ) == Some(Fault::SnapshotModification),
{
}

/// A live resource in snapshot mode refuses every mutating operation that
/// targets its kind, and a live resource in fork mode refuses none.
pub proof fn lemma_mode_decides_mutation<T>(
    live: Map<Handle, Slot<T>>,
    handle: Handle,
    op: Operation,
)
    requires
        live.contains_key(handle),
        live[handle].kind == op.spec_target(),
    ensures
        live[handle].mode == AccessMode::Snapshot && op.spec_mutates() ==> authorize_fault(
            live,
            handle,
            op,
        ) == Some(Fault::SnapshotModification),
        live[handle].mode == AccessMode::Fork || !op.spec_mutates() ==> authorize_fault(
            live,
            handle,
            op,
        ) is None,
{
}

/// Once destroyed, a handle resolves to nothing, whatever kind is asked for
/// and whatever operation is tried; destroying it again fails the same way.
pub proof fn lemma_destroyed_handle_is_dead<T>(
    live: Map<Handle, Slot<T>>,
    handle: Handle,
    kind: ResourceKind,
    op: Operation,
)
    ensures
        resolve_fault(live.remove(handle), handle, kind) == Some(Fault::UnknownHandle),
        authorize_fault(live.remove(handle), handle, op) == Some(Fault::UnknownHandle),
{
}

/// Issuing a handle leaves every other handle as it was: what was live stays
/// live with the same slot, and what was dead stays dead. With handles issued
/// in increasing order, a destroyed handle can therefore never come back.
pub proof fn lemma_issue_keeps_other_handles<T>(
    live: Map<Handle, Slot<T>>,
    issued: nat,
    fresh: Handle,
    slot: Slot<T>,
    other: Handle,
)
    requires
        fresh == issued + 1,
        other <= issued,
    ensures
        live.insert(fresh, slot).contains_key(other) == live.contains_key(other),
        live.contains_key(other) ==> live.insert(fresh, slot)[other] == live[other],
{
}

} // verus!
