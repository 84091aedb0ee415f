use crate::native::NativeHeap;
use vstd::prelude::*;

verus! {

/// What one release does to a holder count: one holder fewer, and whether
/// that was the last one.
pub open spec fn release_outcome(holders: nat) -> (nat, bool) {
    if holders <= 1 {
        (0, true)
    } else {
        ((holders - 1) as nat, false)
    }
}

/// What one release does to a holder count and to the live set: the
/// holders left, the live set after it, and whether the handle went.
pub open spec fn release_effect(holders: nat, live: Set<usize>, handle: usize) -> (nat, Set<usize>, bool) {
    let (left, freed) = release_outcome(holders);
    (
        left,
        if freed {
            live.remove(handle)
        } else {
            live
        },
        freed,
    )
}

/// Shared ownership of one native handle that a dispatcher thread may call
/// into.
///
/// The handle wrapper and the dispatcher's retention list each count as one
/// holder. The handle is released when the last holder lets go, whichever
/// one that is, and never before.
#[derive(Debug)]
pub struct DropGuard {
    handle: usize,
    holders: u32,
}

impl DropGuard {
    /// The guarded native handle.
    pub closed spec fn handle(&self) -> usize {
        self.handle
    }

    /// How many parties still hold the guard.
    pub closed spec fn holders(&self) -> nat {
        self.holders as nat
    }

    /// Whether the guard still holds its handle, live in `heap`.
    pub open spec fn holds_in(&self, heap: &NativeHeap) -> bool {
        self.holders() > 0 && heap.live_ids().contains(self.handle())
    }

    /// A guard over `handle` with one holder.
    pub fn new(handle: usize) -> (r: DropGuard)
        ensures
            r.handle() == handle,
            r.holders() == 1,
    {
        DropGuard { handle, holders: 1 }
    }

    /// The guarded native handle.
    pub fn handle_id(&self) -> (r: usize)
        ensures
            r == self.handle(),
    {
        self.handle
    }

    /// The number of holders.
    pub fn holder_count(&self) -> (r: u32)
        ensures
            r == self.holders(),
    {
        self.holders
    }

    /// A second record of the same guard state.
    pub(crate) fn copy(&self) -> (r: DropGuard)
        ensures
            r.handle() == self.handle(),
            r.holders() == self.holders(),
    {
        DropGuard { handle: self.handle, holders: self.holders }
    }

    /// Adds a holder.
    pub fn share(&mut self)
        requires
            0 < old(self).holders() < u32::MAX,
        ensures
            final(self).holders() == old(self).holders() + 1,
            final(self).handle() == old(self).handle(),
    {
        self.holders = self.holders + 1;
    }

    /// One holder lets go; the last one releases the handle. Returns whether
    /// the handle was released.
    pub fn release(&mut self, heap: &mut NativeHeap) -> (freed: bool)
        requires
            old(self).holds_in(&*old(heap)),
        ensures
            (final(self).holders(), freed) == release_outcome(old(self).holders()),
            (final(self).holders(), final(heap).live_ids(), freed) == release_effect(
                old(self).holders(),
                old(heap).live_ids(),
                old(self).handle(),
            ),
            final(self).handle() == old(self).handle(),
            freed ==> final(heap).live_ids() == old(heap).live_ids().remove(old(self).handle()),
            !freed ==> final(heap).live_ids() == old(heap).live_ids(),
            final(heap).spare() == old(heap).spare(),
            freed ==> final(heap).release_log() == old(heap).release_log().push(old(self).handle()),
            !freed ==> final(heap).release_log() == old(heap).release_log(),
    {
        self.holders = self.holders - 1;
        if self.holders == 0 {
            heap.release(self.handle);
            true
        } else {
            false
        }
    }
}

/// A guard shared by a handle wrapper and a dispatcher's retention list
/// releases its handle exactly once, at the second release and not at the
/// first. Both holders let go through the same release, so this holds
/// whichever of the two goes first.
pub proof fn lemma_guard_release_order(live: Set<usize>, handle: usize)
    requires
        live.contains(handle),
    ensures
        ({
            let first = release_effect(2, live, handle);
            let second = release_effect(first.0, first.1, handle);
            &&& !first.2
            &&& first.1 == live
            &&& second.2
            &&& second.1 == live.remove(handle)
            &&& !second.1.contains(handle)
            &&& second.0 == 0
        }),
{
}

} // verus!
