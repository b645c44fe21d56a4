use vstd::prelude::*;
use crate::snapshot::WorldStateView;
use crate::store::{swap_changed, swap_post};

verus! {

/// No torn read: around one swap of `candidate` into a store holding `pre`,
/// a read observes the store's value immediately before or immediately after
/// the swap — and either way that value is, in whole, `pre` or `candidate`.
/// No value mixing fields of the two is ever observable.
pub proof fn lemma_no_torn_read(
    pre: WorldStateView,
    candidate: WorldStateView,
    observed: WorldStateView,
)
    requires
        observed == pre || observed == swap_post(pre, candidate),
    ensures
        observed == pre || observed == candidate,
{
}

/// Idempotent no-op swap: swapping in a value equal to the current one
/// leaves the store unchanged and reports no change — and keeps doing so,
/// however often it is repeated.
pub proof fn lemma_idempotent_noop_swap(current: WorldStateView, candidate: WorldStateView)
    requires
        candidate == current,
    ensures
        swap_post(current, candidate) == current,
        !swap_changed(current, candidate),
        swap_post(swap_post(current, candidate), candidate) == current,
        !swap_changed(swap_post(current, candidate), candidate),
{
}

/// The store always reflects the last successfully parsed snapshot: whatever
/// value it held before, a swap of a parsed snapshot leaves it holding that
/// snapshot's value — by replacement when it differs, or because the held
/// value was already equal to it.
pub proof fn lemma_last_parsed_snapshot_wins(current: WorldStateView, parsed: WorldStateView)
    ensures
        swap_post(current, parsed) == parsed,
{
}

/// Change detection: a store bootstrapped with `s0` and then fed the parsed
/// snapshots `s1`, `s1`, `s2` in turn (the middle one repeated) ends up
/// holding `s2`, and exactly two cycles report a change: the first and the
/// last.
pub proof fn lemma_change_detection(s0: WorldStateView, s1: WorldStateView, s2: WorldStateView)
    requires
        s0 != s1,
        s1 != s2,
    ensures
        swap_post(swap_post(swap_post(s0, s1), s1), s2) == s2,
        swap_changed(s0, s1),
        !swap_changed(swap_post(s0, s1), s1),
        swap_changed(swap_post(swap_post(s0, s1), s1), s2),
{
}

} // verus!
