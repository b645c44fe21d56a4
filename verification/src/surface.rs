use vstd::prelude::*;
use crate::snapshot::{Fissure, WorldState};
use crate::store::SnapshotStore;

verus! {

/// Read surface: the full current snapshot, as an independent copy. Reads
/// the store exactly once, mutates nothing, triggers no refresh.
pub fn worldstate(store: &SnapshotStore) -> (r: WorldState)
    ensures
        r@ == store@,
{
    store.read()
}

/// Read surface: the derived view of time-boxed fissure events, projected
/// from the current snapshot at read time. Reads the store exactly once;
/// the projection has no lifecycle of its own.
pub fn fissures(store: &SnapshotStore) -> (r: Vec<Fissure>)
    ensures
        r@ == store@.fissures,
{
    let snapshot = store.read();
    snapshot.fissures
}

} // verus!
