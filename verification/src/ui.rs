//! What the progress display decides on its own: a blank line separates a
//! finished phase from whatever is shown next.

use vstd::prelude::*;

verus! {

/// Whether a separating line is owed before the next phase heading or
/// summary: one is owed after each finished phase, and given once.
#[derive(Debug)]
pub struct Separators {
    pending: bool,
}

impl Separators {
    /// A separator is owed.
    pub closed spec fn pending(&self) -> bool {
        self.pending
    }

    /// Nothing has been shown yet, so nothing is owed.
    pub fn new() -> (res: Self)
        ensures
            !res.pending(),
    {
        Separators { pending: false }
    }

    /// Before a phase starts or the summary is shown: whether a separator
    /// comes first. It is then no longer owed.
    pub fn take(&mut self) -> (res: bool)
        ensures
            res == old(self).pending(),
            !final(self).pending(),
    {
        let res = self.pending;
        self.pending = false;
        res
    }

    /// A phase has finished: a separator is owed.
    pub fn phase_finished(&mut self)
        ensures
            final(self).pending(),
    {
        self.pending = true;
    }
}

} // verus!
