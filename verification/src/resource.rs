//! The resource primitive: an asynchronous computation keyed by a reactive
//! input, with a cache slot per key.
//!
//! The fetch itself runs outside, on the asynchronous runtime that drives the
//! mount. A call of [`Resource::get`] that answers `Suspended { started:
//! true }` obliges that runtime to run the fetch for the current key and
//! hand the outcome back through [`Resource::complete`], which compares the
//! key at completion time: an outcome for a key that is no longer current is
//! discarded, never adopted.

use vstd::prelude::*;
use crate::list;

verus! {

/// The cache slot of a resource: where the computation stands for the
/// current key.
#[derive(Clone, Copy, PartialEq, Eq, Debug)]
pub enum ResState {
    /// No fetch for the current key has been asked for yet.
    NotStarted,
    /// A fetch for the current key is in flight; awaiting callers join it.
    Pending,
    /// The fetch for the current key settled with this value.
    Ready(u64),
    /// The fetch for the current key settled with this typed failure.
    Errored(u64),
}

/// What an awaiting caller of [`Resource::get`] sees.
#[derive(Clone, Copy, PartialEq, Eq, Debug)]
pub enum GetOutcome {
    /// The cached value for the current key, answered at once.
    Available(u64),
    /// The cached typed failure for the current key, answered at once.
    Failed(u64),
    /// The caller suspends until the current key's fetch completes.
    /// `started` tells the driving runtime whether this call launched the
    /// fetch (`true`) or joined one already in flight (`false`).
    Suspended { started: bool },
}

/// A keyed asynchronous computation with a single cache slot.
pub struct Resource {
    /// The current derived key.
    pub key: u64,
    /// Where the computation stands for `key`.
    pub state: ResState,
    /// How many fetch invocations were ever started.
    pub fetches: u64,
    /// The keys whose fetches are in flight right now.
    pub inflight: Vec<u64>,
}

impl Resource {
    /// Both parts unchanged between two states of the slot.
    pub open spec fn unchanged(pre: Resource, post: Resource) -> bool {
        &&& post.key == pre.key
        &&& post.state == pre.state
        &&& post.fetches == pre.fetches
        &&& post.inflight@ == pre.inflight@
    }

    /// At most one fetch in flight per key, and a pending slot has a flight
    /// for its current key to join.
    pub open spec fn wf(self) -> bool {
        &&& self.inflight@.no_duplicates()
        &&& self.state is Pending ==> self.inflight@.contains(self.key)
    }

    /// How one awaited read moves the slot. A settled slot answers at once;
    /// a pending one suspends the caller on the flight already up; a cold
    /// one becomes pending and starts a fetch — unless a flight for this
    /// very key is still up (the key changed away and back), which the
    /// caller joins instead, so no key ever has two fetches in flight.
    pub open spec fn get_rel(pre: Resource, post: Resource, out: GetOutcome) -> bool {
        match pre.state {
            ResState::Ready(v) => Resource::unchanged(pre, post) && out == GetOutcome::Available(v),
            ResState::Errored(e) => Resource::unchanged(pre, post) && out == GetOutcome::Failed(e),
            ResState::Pending => Resource::unchanged(pre, post) && out == (GetOutcome::Suspended {
                started: false,
            }),
            ResState::NotStarted => {
                &&& post.key == pre.key
                &&& post.state is Pending
                &&& if pre.inflight@.contains(pre.key) {
                    &&& post.inflight@ == pre.inflight@
                    &&& post.fetches == pre.fetches
                    &&& out == (GetOutcome::Suspended { started: false })
                } else {
                    &&& post.inflight@ == pre.inflight@.push(pre.key)
                    &&& post.fetches == pre.fetches + 1
                    &&& out == (GetOutcome::Suspended { started: true })
                }
            },
        }
    }

    /// How a finished fetch for key `k` lands. Its flight is retired either
    /// way; the outcome is adopted only if the slot still awaits `k` —
    /// pending, with `k` the current key. A stale outcome (the key moved on)
    /// is discarded without touching the slot.
    pub open spec fn complete_rel(
        pre: Resource,
        k: u64,
        res: Result<u64, u64>,
        post: Resource,
        accepted: bool,
    ) -> bool {
        &&& post.key == pre.key
        &&& post.fetches == pre.fetches
        &&& post.inflight@ == list::without_u64(pre.inflight@, k)
        &&& accepted == (pre.state is Pending && pre.key == k)
        &&& post.state == (if accepted {
            match res {
                Ok(v) => ResState::Ready(v),
                Err(e) => ResState::Errored(e),
            }
        } else {
            pre.state
        })
    }

    /// How a change of the derived key moves the slot: a key equal in value
    /// to the current one changes nothing (no re-fetch on every read); a new
    /// key resets the slot to cold, so the next read fetches afresh.
    pub open spec fn set_key_rel(pre: Resource, k: u64, post: Resource) -> bool {
        if k == pre.key {
            Resource::unchanged(pre, post)
        } else {
            &&& post.key == k
            &&& post.state is NotStarted
            &&& post.fetches == pre.fetches
            &&& post.inflight@ == pre.inflight@
        }
    }

    /// A resource starts cold: nothing fetched, nothing in flight.
    pub fn new(key: u64) -> (r: Resource)
        ensures
            r.wf(),
            r.key == key,
            r.state is NotStarted,
            r.fetches == 0,
            r.inflight@.len() == 0,
    {
        Resource { key, state: ResState::NotStarted, fetches: 0, inflight: Vec::new() }
    }

    /// The awaited read. From a cold slot exactly one fetch starts; every
    /// later read before completion joins that flight, so two concurrent
    /// readers of one key cause one fetch, not two.
    pub fn get(&mut self) -> (out: GetOutcome)
        requires
            old(self).wf(),
            old(self).fetches < u64::MAX,
        ensures
            final(self).wf(),
            Resource::get_rel(*old(self), *final(self), out),
    {
        match self.state {
            ResState::Ready(v) => GetOutcome::Available(v),
            ResState::Errored(e) => GetOutcome::Failed(e),
            ResState::Pending => GetOutcome::Suspended { started: false },
            ResState::NotStarted => {
                self.state = ResState::Pending;
                if list::holds_u64(&self.inflight, self.key) {
                    GetOutcome::Suspended { started: false }
                } else {
                    self.inflight.push(self.key);
                    self.fetches = self.fetches + 1;
                    proof {
                        let pre = old(self).inflight@;
                        assert(self.inflight@ == pre.push(self.key));
                        assert(self.inflight@[self.inflight@.len() - 1] == self.key);
                        assert(self.inflight@.contains(self.key));
                        assert forall|a: int, b: int|
                            0 <= a < self.inflight@.len() && 0 <= b < self.inflight@.len() && a != b
                            implies self.inflight@[a] != self.inflight@[b] by {
                            if a < pre.len() && b < pre.len() {
                                assert(pre[a] != pre[b]);
                            } else if b == pre.len() {
                                assert(pre[a] != self.key);
                            } else {
                                assert(pre[b] != self.key);
                            }
                        }
                    }
                    GetOutcome::Suspended { started: true }
                }
            },
        }
    }

    /// Lands the outcome of the fetch that was started for key `k`.
    pub fn complete(&mut self, k: u64, res: Result<u64, u64>) -> (accepted: bool)
        requires
            old(self).wf(),
            old(self).inflight@.contains(k),
        ensures
            final(self).wf(),
            Resource::complete_rel(*old(self), k, res, *final(self), accepted),
    {
        self.inflight = list::remove_u64(&self.inflight, k);
        proof {
            list::lemma_without_u64_props(old(self).inflight@, k);
        }
        let accepted = match self.state {
            ResState::Pending => self.key == k,
            _ => false,
        };
        if accepted {
            match res {
                Ok(v) => { self.state = ResState::Ready(v) },
                Err(e) => { self.state = ResState::Errored(e) },
            }
        }
        accepted
    }

    /// Re-derives the key. Only a change in value resets the slot; a stale
    /// flight for the old key stays up, to be discarded at its completion.
    pub fn set_key(&mut self, k: u64) -> (changed: bool)
        requires
            old(self).wf(),
        ensures
            final(self).wf(),
            Resource::set_key_rel(*old(self), k, *final(self)),
            changed == (k != old(self).key),
    {
        if k == self.key {
            false
        } else {
            self.key = k;
            self.state = ResState::NotStarted;
            true
        }
    }
}

} // verus!
