use vstd::prelude::*;

verus! {

/// What the stored cursor becomes when a caller reports that event `seq`
/// was fully processed: the position never moves backwards.
pub open spec fn advanced_cursor(prev: Option<u64>, seq: u64) -> Option<u64> {
    match prev {
        Some(p) => if p >= seq {
            Some(p)
        } else {
            Some(seq)
        },
        None => Some(seq),
    }
}

/// Sequence position of the last fully-processed firehose event; the resume
/// point handed back to the stream connector after a disconnect.
///
/// Invariant: the position never decreases. A redelivered event asks to
/// advance to a value already covered, which is a no-op rather than an error.
pub struct CursorStore {
    value: Option<u64>,
}

impl CursorStore {
    /// The currently stored position, if any event was processed yet.
    pub closed spec fn spec_get(&self) -> Option<u64> {
        self.value
    }

    /// A fresh store: no event processed, the connector starts from "now".
    pub fn new() -> (c: CursorStore)
        ensures
            c.spec_get() is None,
    {
        CursorStore { value: None }
    }

    /// The resume point for a (re)connection.
    pub fn get(&self) -> (r: Option<u64>)
        ensures
            r == self.spec_get(),
    {
        self.value
    }

    /// Record that event `seq` was fully processed. Never regresses: a
    /// request below the stored position leaves the store unchanged.
    pub fn advance(&mut self, seq: u64)
        ensures
            final(self).spec_get() == advanced_cursor(old(self).spec_get(), seq),
            final(self).spec_get() is Some,
    {
        match self.value {
            Some(p) => {
                if p < seq {
                    self.value = Some(seq);
                }
            },
            None => {
                self.value = Some(seq);
            },
        }
    }
}

/// Monotonicity under redelivery: once the cursor stands at `n`, a replayed
/// advance to any `m < n` leaves it at `n`.
pub proof fn lemma_cursor_monotonic(prev: Option<u64>, n: u64, m: u64)
    requires
        m < n,
    ensures
        advanced_cursor(advanced_cursor(prev, n), m) == advanced_cursor(prev, n),
{
}

/// Advancing twice by the same position is the same as advancing once:
/// redelivery of the very same event does not change the store.
pub proof fn lemma_cursor_advance_idempotent(prev: Option<u64>, n: u64)
    ensures
        advanced_cursor(advanced_cursor(prev, n), n) == advanced_cursor(prev, n),
{
}

} // verus!
