use vstd::prelude::*;
use crate::snapshot::{WorldState, WorldStateView, fissures_eq};

verus! {

/// What a swap of `candidate` into a store holding `current` leaves behind:
/// the candidate exactly when it differs from the current value, otherwise
/// the current value untouched.
pub open spec fn swap_post(current: WorldStateView, candidate: WorldStateView) -> WorldStateView {
    if candidate == current {
        current
    } else {
        candidate
    }
}

/// Whether a swap of `candidate` into a store holding `current` reports a
/// change.
pub open spec fn swap_changed(current: WorldStateView, candidate: WorldStateView) -> bool {
    candidate != current
}

/// The cache cell: the single slot holding the current snapshot.
///
/// A value of this type exists only from `initialize` on, so a read before
/// initialization cannot be written. The refresh loop is the sole writer,
/// through `compare_and_swap`, which demands exclusive access (`&mut`);
/// readers share the cell through `read`. The synchronization primitive that
/// grants those accesses concurrently is injected by the embedding process,
/// outside this crate; no method here performs I/O or blocks.
pub struct SnapshotStore {
    current: WorldState,
}

impl View for SnapshotStore {
    type V = WorldStateView;

    closed spec fn view(&self) -> WorldStateView {
        self.current@
    }
}

impl SnapshotStore {
    /// Sets the first snapshot, exactly once: the store is created by this
    /// call and by nothing else.
    pub fn initialize(snapshot: WorldState) -> (store: SnapshotStore)
        ensures
            store@ == snapshot@,
    {
        SnapshotStore { current: snapshot }
    }

    /// Returns an independent copy of the current snapshot: always a complete
    /// value, equal to what the store holds at this instant, sharing no
    /// storage with the cell.
    pub fn read(&self) -> (r: WorldState)
        ensures
            r@ == self@,
    {
        self.current.duplicate()
    }

    /// Compares `candidate` to the current snapshot by full value equality;
    /// if different, replaces the current snapshot and reports `true`; if
    /// equal, leaves the store untouched and reports `false`. The only
    /// mutation entry point.
    pub fn compare_and_swap(&mut self, candidate: WorldState) -> (changed: bool)
        ensures
            changed == swap_changed(old(self)@, candidate@),
            final(self)@ == swap_post(old(self)@, candidate@),
    {
        if self.current != candidate {
            self.current = candidate;
            true
        } else {
            false
        }
    }

    /// Whether `candidate` carries a fissure collection different from the
    /// current snapshot's: recorded by the refresh loop for observability
    /// only, never a decision input.
    pub fn fissures_differ(&self, candidate: &WorldState) -> (r: bool)
        ensures
            r == (self@.fissures != candidate@.fissures),
    {
        !fissures_eq(&self.current.fissures, &candidate.fissures)
    }
}

} // verus!
