//! A one-slot register: what is written in one cycle is read in the next.
//!
//! The heading error fused in one cycle reaches the wheels, as the lane
//! controller's correction, one cycle later. The register makes that delay
//! explicit.

use vstd::prelude::*;

verus! {

/// The slot and what it holds.
#[derive(Debug, PartialEq, Eq)]
pub struct DelaySlot<T> {
    pub held: Option<T>,
}

impl<T> DelaySlot<T> {
    /// What comes out of the register, cycle by cycle, when `inputs` go in
    /// and it holds `held` at the start.
    pub open spec fn spec_outputs(held: Option<T>, inputs: Seq<Option<T>>) -> Seq<Option<T>> {
        Seq::new(
            inputs.len(),
            |k: int|
                if k == 0 {
                    held
                } else {
                    inputs[k - 1]
                },
        )
    }

    /// An empty register.
    pub fn new() -> (slot: Self)
        ensures
            slot.held is None,
    {
        DelaySlot { held: None }
    }

    /// One cycle: puts `incoming` into the slot and hands out what the slot
    /// held.
    pub fn exchange(&mut self, incoming: Option<T>) -> (outgoing: Option<T>)
        ensures
            outgoing == old(self).held,
            final(self).held == incoming,
    {
        let outgoing = self.held.take();
        self.held = incoming;
        outgoing
    }
}

impl<T: Copy> DelaySlot<T> {
    /// Runs the register over `inputs`, one exchange per cycle, and collects
    /// what comes out.
    pub fn run(&mut self, inputs: &Vec<Option<T>>) -> (outputs: Vec<Option<T>>)
        ensures
            outputs@ == Self::spec_outputs(old(self).held, inputs@),
            final(self).held == if inputs@.len() == 0 {
                old(self).held
            } else {
                inputs@[inputs@.len() - 1]
            },
    {
        let mut outputs: Vec<Option<T>> = Vec::new();
        let mut k: usize = 0;
        while k < inputs.len()
            invariant
                k <= inputs.len(),
                outputs@.len() == k,
                forall|j: int|
                    0 <= j < k ==> outputs@[j] == Self::spec_outputs(old(self).held, inputs@)[j],
                self.held == if k == 0 {
                    old(self).held
                } else {
                    inputs@[k - 1]
                },
            decreases inputs.len() - k,
        {
            let out = self.exchange(inputs[k]);
            outputs.push(out);
            k += 1;
        }
        assert(outputs@ =~= Self::spec_outputs(old(self).held, inputs@));
        outputs
    }
}

/// The register delays by exactly one cycle: what goes in at cycle `k`
/// comes out at cycle `k + 1`, and at no other.
pub proof fn lemma_one_cycle_delay<T>(held: Option<T>, inputs: Seq<Option<T>>, k: int)
    requires
        0 <= k,
        k + 1 < inputs.len(),
    ensures
        DelaySlot::<T>::spec_outputs(held, inputs)[k + 1] == inputs[k],
        DelaySlot::<T>::spec_outputs(held, inputs)[0] == held,
{
}

} // verus!
