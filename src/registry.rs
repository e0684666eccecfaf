use std::collections::HashSet;
use vstd::prelude::*;

verus! {

broadcast use vstd::std_specs::hash::group_hash_axioms;

/// Outcome of claiming `pin` in a registry holding `claimed`: whether the claim
/// succeeds, and the claimed set afterwards.
pub open spec fn spec_claim(claimed: Set<i32>, pin: i32) -> (bool, Set<i32>) {
    (!claimed.contains(pin), claimed.insert(pin))
}

/// The claimed set after releasing `pin`.
pub open spec fn spec_release(claimed: Set<i32>, pin: i32) -> Set<i32> {
    claimed.remove(pin)
}

/// The set of physical pin numbers currently claimed by live handles.
#[derive(Debug)]
pub struct PinRegistry {
    claimed: HashSet<i32>,
}

impl View for PinRegistry {
    type V = Set<i32>;

    closed spec fn view(&self) -> Set<i32> {
        self.claimed@
    }
}

impl PinRegistry {
    /// A registry in which no pin is claimed.
    pub fn new() -> (r: PinRegistry)
        ensures
            r@ == Set::<i32>::empty(),
    {
        PinRegistry { claimed: HashSet::new() }
    }

    /// Claims `pin`. Returns `false`, and changes nothing, if it is already claimed.
    pub fn claim(&mut self, pin: i32) -> (r: bool)
        ensures
            (r, final(self)@) == spec_claim(old(self)@, pin),
    {
        self.claimed.insert(pin)
    }

    /// Releases `pin`; releasing a pin that is not claimed does nothing.
    pub fn release(&mut self, pin: i32)
        ensures
            final(self)@ == spec_release(old(self)@, pin),
    {
        self.claimed.remove(&pin);
    }

    /// Whether `pin` is currently claimed.
    pub fn is_claimed(&self, pin: i32) -> (r: bool)
        ensures
            r == self@.contains(pin),
    {
        self.claimed.contains(&pin)
    }
}

/// Of two successive claims on the same pin, at most one succeeds, and a claim
/// on a pin that is already claimed leaves the registry as it was.
pub proof fn lemma_claim_exclusive(claimed: Set<i32>, pin: i32)
    ensures
        !(spec_claim(claimed, pin).0 && spec_claim(spec_claim(claimed, pin).1, pin).0),
        claimed.contains(pin) ==> spec_claim(claimed, pin).1 == claimed,
        spec_claim(claimed, pin).1.contains(pin),
{
    if claimed.contains(pin) {
        assert(claimed.insert(pin) =~= claimed);
    }
}

/// Once a pin is released, the next claim on it succeeds.
pub proof fn lemma_release_then_claim(claimed: Set<i32>, pin: i32)
    ensures
        spec_claim(spec_release(claimed, pin), pin).0,
{
}

} // verus!
