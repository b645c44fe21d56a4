use vstd::prelude::*;
use crate::snapshot::WorldState;
use crate::store::{SnapshotStore, swap_changed, swap_post};

verus! {

/// What one refresh cycle observed from its external collaborators: the
/// fetcher failed, the parser failed, or a complete snapshot was parsed.
pub enum CycleEvent {
    FetchFailed,
    ParseFailed,
    Parsed(WorldState),
}

/// The record a cycle leaves behind for observability: which failure was
/// contained, or whether the swap found a change — and, alongside it, whether
/// the fissure collection in particular differed (logged, never acted on).
#[derive(Clone, Copy, PartialEq, Eq, Structural, Debug)]
pub enum CycleReport {
    SkippedFetchFailure,
    SkippedParseFailure,
    Swapped { changed: bool, fissures_changed: bool },
}

/// Why startup failed: the mandatory bootstrap fetch or parse did not
/// succeed, so there is no valid snapshot to serve.
#[derive(Clone, Copy, PartialEq, Eq, Structural, Debug)]
pub enum StartupError {
    FetchFailed,
    ParseFailed,
}

/// One cycle of the refresh loop, given what the external fetch and parse
/// produced. A fetch or parse failure is contained: the store is left exactly
/// as it was, and the loop simply runs again after its normal interval. Only
/// a fully parsed snapshot reaches `compare_and_swap`.
pub fn refresh_cycle(store: &mut SnapshotStore, event: CycleEvent) -> (report: CycleReport)
    ensures
        match event {
            CycleEvent::FetchFailed => final(store)@ == old(store)@ && report
                == CycleReport::SkippedFetchFailure,
            CycleEvent::ParseFailed => final(store)@ == old(store)@ && report
                == CycleReport::SkippedParseFailure,
            CycleEvent::Parsed(snapshot) => final(store)@ == swap_post(old(store)@, snapshot@)
                && report == (CycleReport::Swapped {
                    changed: swap_changed(old(store)@, snapshot@),
                    fissures_changed: old(store)@.fissures != snapshot@.fissures,
                }),
        },
{
    match event {
        CycleEvent::FetchFailed => CycleReport::SkippedFetchFailure,
        CycleEvent::ParseFailed => CycleReport::SkippedParseFailure,
        CycleEvent::Parsed(snapshot) => {
            let fissures_changed = store.fissures_differ(&snapshot);
            let changed = store.compare_and_swap(snapshot);
            CycleReport::Swapped { changed, fissures_changed }
        },
    }
}

/// The startup gate: the mandatory first fetch and parse must succeed before
/// anything is served. On failure there is no store at all — the process has
/// nothing valid to serve and must not start; on success the store begins
/// holding exactly the bootstrap snapshot.
pub fn bootstrap(event: CycleEvent) -> (r: Result<SnapshotStore, StartupError>)
    ensures
        match event {
            CycleEvent::FetchFailed => r matches Err(e) && e == StartupError::FetchFailed,
            CycleEvent::ParseFailed => r matches Err(e) && e == StartupError::ParseFailed,
            CycleEvent::Parsed(snapshot) => r matches Ok(store) && store@ == snapshot@,
        },
{
    match event {
        CycleEvent::FetchFailed => Err(StartupError::FetchFailed),
        CycleEvent::ParseFailed => Err(StartupError::ParseFailed),
        CycleEvent::Parsed(snapshot) => Ok(SnapshotStore::initialize(snapshot)),
    }
}

} // verus!
