use vstd::prelude::*;

verus! {

/// Whether the signal is delivered after a delivery.
pub open spec fn delivered_after(before: bool) -> bool {
    true
}

/// Whether a delivery onto a signal in state `before` is the first one.
pub open spec fn is_first_delivery(before: bool) -> bool {
    !before
}

/// One-shot notification that the call budget has run out. Delivering it
/// again has no further effect.
pub struct ExhaustionSignal {
    delivered: bool,
}

impl View for ExhaustionSignal {
    type V = bool;

    /// Whether the signal has been delivered.
    closed spec fn view(&self) -> bool {
        self.delivered
    }
}

impl ExhaustionSignal {
    pub fn new() -> (s: ExhaustionSignal)
        ensures
            !s@,
    {
        ExhaustionSignal { delivered: false }
    }

    /// Delivers the signal; returns whether this delivery was the first.
    pub fn deliver(&mut self) -> (first: bool)
        ensures
            final(self)@ == delivered_after(old(self)@),
            first == is_first_delivery(old(self)@),
    {
        let first = !self.delivered;
        self.delivered = true;
        first
    }

    pub fn is_delivered(&self) -> (r: bool)
        ensures
            r == self@,
    {
        self.delivered
    }
}

} // verus!
