use vstd::prelude::*;

verus! {

/// One time-boxed fissure event, reduced to the plain values the cache logic
/// compares: an identifier, a tier, the instants (seconds since the epoch) at
/// which it activates and expires, and whether it is a hard-mode fissure.
#[derive(Clone, Copy, PartialEq, Eq, Structural, Debug)]
pub struct Fissure {
    pub id: u64,
    pub tier: u64,
    pub activation: u64,
    pub expiry: u64,
    pub hard: bool,
}

/// The mathematical value of a snapshot: the instant it describes and the
/// sequence of active fissures it carries.
#[verifier::ext_equal]
pub struct WorldStateView {
    pub timestamp: int,
    pub fissures: Seq<Fissure>,
}

/// One complete snapshot of upstream state, immutable once constructed.
/// Produced by the external parser (converted to this shape at the boundary)
/// and only ever published whole.
#[derive(Debug)]
pub struct WorldState {
    pub timestamp: u64,
    pub fissures: Vec<Fissure>,
}

impl View for WorldState {
    type V = WorldStateView;

    open spec fn view(&self) -> WorldStateView {
        WorldStateView {
            timestamp: self.timestamp as int,
            fissures: self.fissures@,
        }
    }
}

/// Deep equality of two fissure collections: same length, equal entries in
/// the same order.
pub fn fissures_eq(a: &Vec<Fissure>, b: &Vec<Fissure>) -> (r: bool)
    ensures
        r == (a@ == b@),
{
    if a.len() != b.len() {
        return false;
    }
    let mut i: usize = 0;
    while i < a.len()
        invariant
            i <= a.len(),
            a.len() == b.len(),
            forall|j: int| 0 <= j < i ==> a@[j] == b@[j],
        decreases a.len() - i,
    {
        if a[i] != b[i] {
            return false;
        }
        i += 1;
    }
    proof {
        assert(a@ =~= b@);
    }
    true
}

impl WorldState {
    /// An independent copy for handing to a reader: equal in value to `self`
    /// but sharing no storage with it, so a later replacement of the original
    /// cannot touch it.
    pub fn duplicate(&self) -> (r: WorldState)
        ensures
            r@ == self@,
    {
        let mut fissures: Vec<Fissure> = Vec::new();
        let mut i: usize = 0;
        while i < self.fissures.len()
            invariant
                i <= self.fissures.len(),
                fissures@.len() == i as int,
                forall|j: int| 0 <= j < i ==> fissures@[j] == self.fissures@[j],
            decreases self.fissures.len() - i,
        {
            fissures.push(self.fissures[i]);
            i += 1;
        }
        let r = WorldState { timestamp: self.timestamp, fissures };
        proof {
            assert(r@.fissures =~= self@.fissures);
            assert(r@ =~= self@);
        }
        r
    }
}

impl PartialEq for WorldState {
    /// Deep value equality: the comparison `compare_and_swap` gates on.
    fn eq(&self, other: &WorldState) -> (r: bool) {
        let r = self.timestamp == other.timestamp && fissures_eq(&self.fissures, &other.fissures);
        proof {
            if r {
                assert(self@ =~= other@);
            }
        }
        r
    }
}

impl vstd::std_specs::cmp::PartialEqSpecImpl for WorldState {
    open spec fn obeys_eq_spec() -> bool {
        true
    }

    open spec fn eq_spec(&self, other: &WorldState) -> bool {
        self@ == other@
    }
}

} // verus!
