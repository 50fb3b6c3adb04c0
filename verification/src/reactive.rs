//! Signal and effect bookkeeping for one mount.
//!
//! Signals are cells of observable state and effects are reactive
//! computations, each identified by the order of its creation. The closures
//! of effects live with the driving runtime; this structure keeps the
//! subscription state that decides which effects a write must schedule, and
//! in what order. Protocol for one effect run: the runtime calls
//! [`Reactive::clear_subscriptions`] (the dependency set is re-derived from
//! scratch on every run), then executes the body, routing every tracked read
//! through [`Reactive::read_tracked`]. A write returns the effects to
//! schedule; the runtime runs them in the returned order, after the write.

use vstd::prelude::*;
use crate::list;

verus! {

/// Subscription and value state of a mount's signals and effects.
pub struct Reactive {
    values: Vec<u64>,
    subs: Vec<Vec<usize>>,
    alive: Vec<bool>,
}

impl Reactive {
    /// The value of every signal, by signal identifier.
    pub closed spec fn values(self) -> Seq<u64> {
        self.values@
    }

    /// The subscribers of signal `s`: effect identifiers in the order their
    /// subscriptions were registered.
    pub closed spec fn subs_at(self, s: int) -> Seq<usize> {
        self.subs@[s]@
    }

    /// How many effects were ever created under this mount.
    pub closed spec fn n_effects(self) -> nat {
        self.alive@.len()
    }

    /// Whether effect `e` has not been disposed.
    pub closed spec fn effect_alive(self, e: int) -> bool {
        self.alive@[e]
    }

    /// Internal shape: one subscriber list per signal.
    pub closed spec fn inv(self) -> bool {
        self.subs@.len() == self.values@.len()
    }

    /// Well-formed bookkeeping: every subscriber list names a created effect
    /// at most once, so one write schedules each subscriber exactly once.
    pub open spec fn wf(self) -> bool {
        &&& self.inv()
        &&& forall|s: int|
            0 <= s < self.values().len() ==> (#[trigger] self.subs_at(s)).no_duplicates()
        &&& forall|s: int, i: int|
            0 <= s < self.values().len() && 0 <= i < self.subs_at(s).len()
                ==> (#[trigger] self.subs_at(s)[i]) < self.n_effects()
    }

    /// A mount starts with no signals and no effects.
    pub fn new() -> (r: Reactive)
        ensures
            r.wf(),
            r.values().len() == 0,
            r.n_effects() == 0,
    {
        Reactive { values: Vec::new(), subs: Vec::new(), alive: Vec::new() }
    }

    /// Declares a fresh signal holding `init` and returns its identifier.
    pub fn create_signal(&mut self, init: u64) -> (id: usize)
        requires
            old(self).wf(),
        ensures
            final(self).wf(),
            id == old(self).values().len(),
            final(self).values() == old(self).values().push(init),
            final(self).subs_at(id as int).len() == 0,
            forall|s: int|
                0 <= s < old(self).values().len()
                    ==> #[trigger] final(self).subs_at(s) == old(self).subs_at(s),
            final(self).n_effects() == old(self).n_effects(),
            forall|e: int|
                0 <= e < old(self).n_effects()
                    ==> #[trigger] final(self).effect_alive(e) == old(self).effect_alive(e),
    {
        let id = self.values.len();
        self.values.push(init);
        self.subs.push(Vec::new());
        proof {
            let pre = *old(self);
            assert forall|s: int|
                0 <= s < self.values().len() implies (#[trigger] self.subs_at(
                s,
            )).no_duplicates() by {
                if s < pre.values().len() {
                    assert(self.subs_at(s) == pre.subs_at(s));
                    assert(pre.subs_at(s).no_duplicates());
                } else {
                    assert(self.subs_at(s).len() == 0);
                }
            }
            assert forall|s: int, i: int|
                0 <= s < self.values().len() && 0 <= i < self.subs_at(s).len() implies (
            #[trigger] self.subs_at(s)[i]) < self.n_effects() by {
                assert(s < pre.values().len());
                assert(self.subs_at(s) == pre.subs_at(s));
                assert(pre.subs_at(s)[i] < pre.n_effects());
            }
        }
        id
    }

    /// Declares a fresh effect and returns its identifier. The runtime runs
    /// the effect's body once upon creation, tracking its reads through
    /// [`Reactive::read_tracked`]; this call only registers the identity.
    pub fn create_effect(&mut self) -> (id: usize)
        requires
            old(self).wf(),
        ensures
            final(self).wf(),
            id == old(self).n_effects(),
            final(self).n_effects() == old(self).n_effects() + 1,
            final(self).effect_alive(id as int),
            forall|e: int|
                0 <= e < old(self).n_effects()
                    ==> #[trigger] final(self).effect_alive(e) == old(self).effect_alive(e),
            final(self).values() == old(self).values(),
            forall|s: int|
                0 <= s < old(self).values().len()
                    ==> #[trigger] final(self).subs_at(s) == old(self).subs_at(s),
    {
        let id = self.alive.len();
        self.alive.push(true);
        proof {
            let pre = *old(self);
            assert forall|s: int|
                0 <= s < self.values().len() implies (#[trigger] self.subs_at(
                s,
            )).no_duplicates() by {
                assert(self.subs_at(s) == pre.subs_at(s));
                assert(pre.subs_at(s).no_duplicates());
            }
            assert forall|s: int, i: int|
                0 <= s < self.values().len() && 0 <= i < self.subs_at(s).len() implies (
            #[trigger] self.subs_at(s)[i]) < self.n_effects() by {
                assert(self.subs_at(s) == pre.subs_at(s));
                assert(pre.subs_at(s)[i] < pre.n_effects());
            }
        }
        id
    }

    /// Snapshot of signal `s` as of now, without subscribing: the caller
    /// gains no reactive dependency from this read.
    pub fn read_untracked(&self, s: usize) -> (v: u64)
        requires
            self.wf(),
            s < self.values().len(),
        ensures
            v == self.values()[s as int],
    {
        self.values[s]
    }

    /// Reads signal `s` on behalf of the running effect `e`, subscribing `e`
    /// to future writes of `s`. A repeated read within one run adds no second
    /// subscription; no other signal's subscribers change.
    pub fn read_tracked(&mut self, s: usize, e: usize) -> (v: u64)
        requires
            old(self).wf(),
            s < old(self).values().len(),
            e < old(self).n_effects(),
        ensures
            final(self).wf(),
            v == old(self).values()[s as int],
            final(self).values() == old(self).values(),
            final(self).n_effects() == old(self).n_effects(),
            forall|x: int|
                0 <= x < old(self).n_effects()
                    ==> #[trigger] final(self).effect_alive(x) == old(self).effect_alive(x),
            final(self).subs_at(s as int) == (if old(self).subs_at(s as int).contains(e) {
                old(self).subs_at(s as int)
            } else {
                old(self).subs_at(s as int).push(e)
            }),
            forall|s2: int|
                0 <= s2 < old(self).values().len() && s2 != s
                    ==> #[trigger] final(self).subs_at(s2) == old(self).subs_at(s2),
    {
        let present = list::holds_usize(&self.subs[s], e);
        if !present {
            let slot = &mut self.subs[s];
            slot.push(e);
        }
        proof {
            let pre = *old(self);
            assert forall|s2: int|
                0 <= s2 < self.values().len() implies (#[trigger] self.subs_at(
                s2,
            )).no_duplicates() by {
                if s2 == s as int && !pre.subs_at(s as int).contains(e) {
                    assert(self.subs_at(s2) == pre.subs_at(s2).push(e));
                    assert(pre.subs_at(s2).no_duplicates());
                    assert(forall|k: int| 0 <= k < pre.subs_at(s2).len() ==> pre.subs_at(s2)[k] != e);
                } else {
                    assert(self.subs_at(s2) == pre.subs_at(s2));
                    assert(pre.subs_at(s2).no_duplicates());
                }
            }
            assert forall|s2: int, i: int|
                0 <= s2 < self.values().len() && 0 <= i < self.subs_at(s2).len() implies (
            #[trigger] self.subs_at(s2)[i]) < self.n_effects() by {
                if s2 == s as int && !pre.subs_at(s as int).contains(e) {
                    assert(self.subs_at(s2) == pre.subs_at(s2).push(e));
                    if i < pre.subs_at(s2).len() {
                        assert(pre.subs_at(s2)[i] < pre.n_effects());
                    }
                } else {
                    assert(self.subs_at(s2) == pre.subs_at(s2));
                    assert(pre.subs_at(s2)[i] < pre.n_effects());
                }
            }
        }
        self.values[s]
    }

    /// Stores `v` into signal `s` and returns the effects to schedule:
    /// exactly the current subscribers of `s`, in registration order, each
    /// once. Subscribers of other signals are not notified.
    pub fn write(&mut self, s: usize, v: u64) -> (notify: Vec<usize>)
        requires
            old(self).wf(),
            s < old(self).values().len(),
        ensures
            final(self).wf(),
            final(self).values() == old(self).values().update(s as int, v),
            forall|s2: int|
                0 <= s2 < old(self).values().len()
                    ==> #[trigger] final(self).subs_at(s2) == old(self).subs_at(s2),
            final(self).n_effects() == old(self).n_effects(),
            forall|x: int|
                0 <= x < old(self).n_effects()
                    ==> #[trigger] final(self).effect_alive(x) == old(self).effect_alive(x),
            notify@ == old(self).subs_at(s as int),
            notify@.no_duplicates(),
    {
        let slot = &mut self.values[s];
        *slot = v;
        proof {
            let pre = *old(self);
            assert forall|s2: int|
                0 <= s2 < self.values().len() implies (#[trigger] self.subs_at(
                s2,
            )).no_duplicates() by {
                assert(self.subs_at(s2) == pre.subs_at(s2));
                assert(pre.subs_at(s2).no_duplicates());
            }
            assert forall|s2: int, i: int|
                0 <= s2 < self.values().len() && 0 <= i < self.subs_at(s2).len() implies (
            #[trigger] self.subs_at(s2)[i]) < self.n_effects() by {
                assert(self.subs_at(s2) == pre.subs_at(s2));
                assert(pre.subs_at(s2)[i] < pre.n_effects());
            }
            assert(pre.subs_at(s as int).no_duplicates());
        }
        list::copy_usize(&self.subs[s])
    }

    /// Stores `v` into signal `s` without scheduling anyone: the untracked
    /// update, for state that must not provoke re-runs.
    pub fn write_untracked(&mut self, s: usize, v: u64)
        requires
            old(self).wf(),
            s < old(self).values().len(),
        ensures
            final(self).wf(),
            final(self).values() == old(self).values().update(s as int, v),
            forall|s2: int|
                0 <= s2 < old(self).values().len()
                    ==> #[trigger] final(self).subs_at(s2) == old(self).subs_at(s2),
            final(self).n_effects() == old(self).n_effects(),
            forall|x: int|
                0 <= x < old(self).n_effects()
                    ==> #[trigger] final(self).effect_alive(x) == old(self).effect_alive(x),
    {
        let slot = &mut self.values[s];
        *slot = v;
        proof {
            let pre = *old(self);
            assert forall|s2: int|
                0 <= s2 < self.values().len() implies (#[trigger] self.subs_at(
                s2,
            )).no_duplicates() by {
                assert(self.subs_at(s2) == pre.subs_at(s2));
                assert(pre.subs_at(s2).no_duplicates());
            }
            assert forall|s2: int, i: int|
                0 <= s2 < self.values().len() && 0 <= i < self.subs_at(s2).len() implies (
            #[trigger] self.subs_at(s2)[i]) < self.n_effects() by {
                assert(self.subs_at(s2) == pre.subs_at(s2));
                assert(pre.subs_at(s2)[i] < pre.n_effects());
            }
        }
    }

    /// Drops every subscription of effect `e`, leaving other subscribers in
    /// place and in order. An effect's dependency set is re-derived from
    /// scratch on each run: the runtime calls this before re-running `e`.
    pub fn clear_subscriptions(&mut self, e: usize)
        requires
            old(self).wf(),
        ensures
            final(self).wf(),
            final(self).values() == old(self).values(),
            final(self).n_effects() == old(self).n_effects(),
            forall|x: int|
                0 <= x < old(self).n_effects()
                    ==> #[trigger] final(self).effect_alive(x) == old(self).effect_alive(x),
            forall|s: int|
                0 <= s < old(self).values().len()
                    ==> #[trigger] final(self).subs_at(s) == list::without_usize(
                    old(self).subs_at(s),
                    e,
                ),
    {
        let mut s: usize = 0;
        while s < self.subs.len()
            invariant
                old(self).wf(),
                self.values@ == old(self).values@,
                self.alive@ == old(self).alive@,
                self.subs@.len() == old(self).subs@.len(),
                s <= self.subs@.len(),
                self.wf(),
                forall|j: int|
                    0 <= j < s
                        ==> (#[trigger] self.subs@[j])@ == list::without_usize(
                        old(self).subs@[j]@,
                        e,
                    ),
                forall|j: int|
                    s <= j < self.subs@.len() ==> (#[trigger] self.subs@[j])@ == old(self).subs@[j]@,
            decreases self.subs@.len() - s,
        {
            let ghost top = *self;
            let filtered = list::remove_usize(&self.subs[s], e);
            let slot = &mut self.subs[s];
            *slot = filtered;
            proof {
                list::lemma_without_usize_props(top.subs_at(s as int), e);
                assert forall|j: int|
                    0 <= j < self.values().len() implies (#[trigger] self.subs_at(
                    j,
                )).no_duplicates() by {
                    if j == s as int {
                        assert(top.subs_at(j).no_duplicates());
                    } else {
                        assert(self.subs_at(j) == top.subs_at(j));
                        assert(top.subs_at(j).no_duplicates());
                    }
                }
                assert forall|j: int, i: int|
                    0 <= j < self.values().len() && 0 <= i < self.subs_at(j).len() implies (
                #[trigger] self.subs_at(j)[i]) < self.n_effects() by {
                    if j == s as int {
                        assert(top.subs_at(j).contains(self.subs_at(j)[i]));
                        let k = choose|k: int|
                            0 <= k < top.subs_at(j).len() && top.subs_at(j)[k] == self.subs_at(j)[i];
                        assert(top.subs_at(j)[k] < top.n_effects());
                    } else {
                        assert(self.subs_at(j) == top.subs_at(j));
                        assert(top.subs_at(j)[i] < top.n_effects());
                    }
                }
                assert((self.subs@[s as int])@ == list::without_usize(
                    old(self).subs@[s as int]@,
                    e,
                ));
            }
            s += 1;
        }
    }

    /// Disposal of effect `e`: it is unsubscribed everywhere and marked
    /// dead, never to be scheduled again.
    pub fn dispose_effect(&mut self, e: usize)
        requires
            old(self).wf(),
            e < old(self).n_effects(),
        ensures
            final(self).wf(),
            final(self).values() == old(self).values(),
            final(self).n_effects() == old(self).n_effects(),
            !final(self).effect_alive(e as int),
            forall|x: int|
                0 <= x < old(self).n_effects() && x != e
                    ==> #[trigger] final(self).effect_alive(x) == old(self).effect_alive(x),
            forall|s: int|
                0 <= s < old(self).values().len()
                    ==> #[trigger] final(self).subs_at(s) == list::without_usize(
                    old(self).subs_at(s),
                    e,
                ),
    {
        self.clear_subscriptions(e);
        let ghost mid = *self;
        let slot = &mut self.alive[e];
        *slot = false;
        proof {
            assert forall|x: int|
                0 <= x < self.n_effects() && x != e implies #[trigger] self.effect_alive(x)
                == old(self).effect_alive(x) by {
                assert(mid.effect_alive(x) == old(self).effect_alive(x));
            }
            assert forall|s: int|
                0 <= s < self.values().len() implies (#[trigger] self.subs_at(
                s,
            )).no_duplicates() by {
                assert(self.subs_at(s) == mid.subs_at(s));
                assert(mid.subs_at(s).no_duplicates());
            }
            assert forall|s: int, i: int|
                0 <= s < self.values().len() && 0 <= i < self.subs_at(s).len() implies (
            #[trigger] self.subs_at(s)[i]) < self.n_effects() by {
                assert(self.subs_at(s) == mid.subs_at(s));
                assert(mid.subs_at(s)[i] < mid.n_effects());
            }
            assert forall|s: int|
                0 <= s < old(self).values().len() implies #[trigger] self.subs_at(s)
                == list::without_usize(old(self).subs_at(s), e) by {
                assert(self.subs_at(s) == mid.subs_at(s));
            }
        }
    }

    /// Teardown of the mount's reactive graph: every subscription is
    /// dropped, so a later write schedules nothing.
    pub fn dispose_all(&mut self)
        requires
            old(self).wf(),
        ensures
            final(self).wf(),
            final(self).values() == old(self).values(),
            final(self).n_effects() == old(self).n_effects(),
            forall|x: int|
                0 <= x < old(self).n_effects()
                    ==> #[trigger] final(self).effect_alive(x) == old(self).effect_alive(x),
            forall|s: int|
                0 <= s < old(self).values().len() ==> #[trigger] final(self).subs_at(s).len() == 0,
    {
        let mut s: usize = 0;
        while s < self.subs.len()
            invariant
                old(self).wf(),
                self.values@ == old(self).values@,
                self.alive@ == old(self).alive@,
                self.subs@.len() == old(self).subs@.len(),
                s <= self.subs@.len(),
                self.wf(),
                forall|j: int| 0 <= j < s ==> (#[trigger] self.subs@[j])@.len() == 0,
                forall|j: int|
                    s <= j < self.subs@.len() ==> (#[trigger] self.subs@[j])@ == old(self).subs@[j]@,
            decreases self.subs@.len() - s,
        {
            let ghost top = *self;
            let slot = &mut self.subs[s];
            *slot = Vec::new();
            proof {
                assert(self.subs_at(s as int).len() == 0);
                assert forall|j: int|
                    0 <= j < self.values().len() implies (#[trigger] self.subs_at(
                    j,
                )).no_duplicates() by {
                    if j != s as int {
                        assert(self.subs_at(j) == top.subs_at(j));
                        assert(top.subs_at(j).no_duplicates());
                    }
                }
                assert forall|j: int, i: int|
                    0 <= j < self.values().len() && 0 <= i < self.subs_at(j).len() implies (
                #[trigger] self.subs_at(j)[i]) < self.n_effects() by {
                    assert(j != s as int);
                    assert(self.subs_at(j) == top.subs_at(j));
                    assert(top.subs_at(j)[i] < top.n_effects());
                }
            }
            s += 1;
        }
    }
}

} // verus!
