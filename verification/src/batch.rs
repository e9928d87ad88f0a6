//! The full-sweep driver state: when no kind is selected, every kind runs
//! one linear pass, in enumeration order, and a failure halts the sweep
//! before the next kind is offered.

use vstd::prelude::*;

verus! {

use crate::kind::Kind;

/// The state of one sweep over the full kind set.
pub struct Sweep {
    /// How many kinds have finished a pass.
    pub pos: usize,
    /// Whether some pass has failed.
    pub halted: bool,
}

impl Sweep {
    /// The position never passes the end of the kind set.
    pub open spec fn wf(self) -> bool {
        self.pos <= Kind::spec_all().len()
    }

    /// Starts a sweep at the first kind.
    pub fn new() -> (s: Sweep)
        ensures
            s.pos == 0,
            !s.halted,
            s.wf(),
    {
        Sweep { pos: 0, halted: false }
    }

    /// The kind to run next: the next in enumeration order, or nothing once
    /// every kind has run or some pass has failed.
    pub fn next(&self) -> (r: Option<Kind>)
        requires
            self.wf(),
        ensures
            self.halted || self.pos >= Kind::spec_all().len() ==> r is None,
            !self.halted && self.pos < Kind::spec_all().len() ==> r == Some(
                Kind::spec_all()[self.pos as int],
            ),
    {
        let all = Kind::iter();
        if self.halted || self.pos >= all.len() {
            None
        } else {
            Some(all[self.pos])
        }
    }

    /// Records the outcome of the pass for the current kind; a failure
    /// halts the sweep.
    pub fn advance(&mut self, ok: bool)
        requires
            old(self).wf(),
            !old(self).halted,
            old(self).pos < Kind::spec_all().len(),
        ensures
            final(self).pos == old(self).pos + 1,
            final(self).halted == !ok,
            final(self).wf(),
    {
        proof {
            assert(Kind::spec_all().len() == 6);
        }
        self.pos = self.pos + 1;
        self.halted = !ok;
    }
}

} // verus!
