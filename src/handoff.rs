use vstd::prelude::*;

verus! {

/// A write-once slot that carries the "granted" answer of an access request
/// from the completion callback to the waiting caller. The first delivery is
/// kept; any later one is ignored.
#[derive(Debug)]
pub struct Handoff {
    slot: Option<bool>,
}

/// The slot after a delivery of `granted`: filled if it was empty, unchanged
/// otherwise.
pub open spec fn delivered(slot: Option<bool>, granted: bool) -> Option<bool> {
    match slot {
        None => Some(granted),
        Some(kept) => Some(kept),
    }
}

/// What the caller concludes from the slot: access counts as granted only
/// when a delivered answer says so.
pub open spec fn outcome_of(slot: Option<bool>) -> bool {
    slot == Some(true)
}

impl View for Handoff {
    type V = Option<bool>;

    closed spec fn view(&self) -> Option<bool> {
        self.slot
    }
}

impl Handoff {
    /// An empty slot.
    pub fn new() -> (r: Handoff)
        ensures
            r@ == None::<bool>,
    {
        Handoff { slot: None }
    }

    /// Delivers an answer. Returns whether it was accepted, which is exactly
    /// when the slot was still empty.
    pub fn deliver(&mut self, granted: bool) -> (accepted: bool)
        ensures
            accepted == old(self)@.is_none(),
            final(self)@ == delivered(old(self)@, granted),
    {
        match self.slot {
            None => {
                self.slot = Some(granted);
                true
            },
            Some(_) => false,
        }
    }

    /// The delivered answer, if any.
    pub fn value(&self) -> (r: Option<bool>)
        ensures
            r == self@,
    {
        self.slot
    }

    /// Whether an answer has been delivered.
    pub fn is_delivered(&self) -> (r: bool)
        ensures
            r == self@.is_some(),
    {
        self.slot.is_some()
    }

    /// The caller's conclusion: `false` when nothing was delivered.
    pub fn granted(&self) -> (r: bool)
        ensures
            r == outcome_of(self@),
    {
        match self.slot {
            Some(g) => g,
            None => false,
        }
    }
}

/// Once an answer is in the slot, no further delivery changes it.
pub proof fn lemma_delivery_write_once(slot: Option<bool>, granted: bool)
    requires
        slot.is_some(),
    ensures
        delivered(slot, granted) == slot,
{
}

/// Two deliveries into an empty slot leave the first answer in it.
pub proof fn lemma_second_delivery_ignored(first: bool, second: bool)
    ensures
        delivered(delivered(None, first), second) == Some(first),
        outcome_of(delivered(delivered(None, first), second)) == first,
{
}

} // verus!
