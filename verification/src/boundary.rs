//! The suspense boundary: a structural node that defers its child subtree
//! while the resources the child body awaits are pending, showing a fallback
//! meanwhile, and swaps to the produced content once they settle.
//!
//! `body_runs` counts completed executions of the child body — side effects
//! and all — and is the ground truth for the exactly-once guarantee.

use vstd::prelude::*;

verus! {

/// What the boundary currently displays.
#[derive(Clone, Copy, PartialEq, Eq, Debug)]
pub enum Shown {
    /// The boundary has not been rendered yet.
    NotRendered,
    /// The fallback, while an awaited resource is pending.
    Fallback,
    /// The content the child body produced (or, under hydration, adopted).
    Content,
}

/// Pending count and displayed state of one suspense boundary.
pub struct Boundary {
    /// What is displayed right now.
    pub shown: Shown,
    /// How many awaited resources of the current child invocation are still
    /// pending; with the single resource here, zero or one.
    pub pending: u64,
    /// How many times the child body ran to completion.
    pub body_runs: u64,
}

impl Boundary {
    /// The fallback is shown exactly while something is pending, and the
    /// body cannot have completed before the first render.
    pub open spec fn wf(self) -> bool {
        &&& self.pending <= 1
        &&& (self.shown is Fallback <==> self.pending == 1)
        &&& (self.shown is NotRendered ==> self.body_runs == 0)
    }

    /// A boundary starts unrendered, with nothing pending and no runs.
    pub fn new() -> (b: Boundary)
        ensures
            b.wf(),
            b.shown is NotRendered,
            b.pending == 0,
            b.body_runs == 0,
    {
        Boundary { shown: Shown::NotRendered, pending: 0, body_runs: 0 }
    }

    /// The child body suspended on a pending resource: count it and show
    /// the fallback at once — the surrounding tree must not stall.
    pub fn suspend(&mut self)
        requires
            old(self).wf(),
        ensures
            final(self).wf(),
            final(self).shown is Fallback,
            final(self).pending == 1,
            final(self).body_runs == old(self).body_runs,
    {
        self.pending = 1;
        self.shown = Shown::Fallback;
    }

    /// The awaited resource settled and the body's continuation ran to
    /// completion: one more body run, and the display swaps to the content.
    pub fn settle(&mut self)
        requires
            old(self).wf(),
            old(self).body_runs < u64::MAX,
        ensures
            final(self).wf(),
            final(self).shown is Content,
            final(self).pending == 0,
            final(self).body_runs == old(self).body_runs + 1,
    {
        self.pending = 0;
        self.shown = Shown::Content;
        self.body_runs = self.body_runs + 1;
    }

    /// Settled content was adopted whole from a transmitted payload: shown
    /// without running the body.
    pub fn adopt(&mut self)
        requires
            old(self).wf(),
        ensures
            final(self).wf(),
            final(self).shown is Content,
            final(self).pending == 0,
            final(self).body_runs == old(self).body_runs,
    {
        self.pending = 0;
        self.shown = Shown::Content;
    }
}

} // verus!
