//! The render phase coordinator: one mount of the view, combining the
//! counter signal, the resource, and the suspense boundary under a fixed
//! render phase.
//!
//! The phase is decided once, at mount start, from the execution context:
//! markup produced ahead of time is `ServerRender`; a live runtime attaching
//! to transmitted markup is `ClientHydrate`; a live runtime with no prior
//! markup is `ClientRender`. Exactly a hydrating mount carries the payload
//! the server pass serialized; its lookup completes before the resource
//! decides whether to fetch, never racing it.
//!
//! The driving runtime calls [`Mount::render`] once, performs the returned
//! [`Action`], hands fetch outcomes back through [`Mount::resolve`], routes
//! key changes through [`Mount::set_key`], and tears the mount down with
//! [`Mount::dispose`].

use vstd::prelude::*;
use crate::boundary::Boundary;
use crate::reactive::Reactive;
use crate::resource::{GetOutcome, ResState, Resource};

verus! {

/// Which pass is executing for this mount; fixed for the mount's lifetime.
#[derive(Clone, Copy, PartialEq, Eq, Debug)]
pub enum RenderPhase {
    /// Markup is produced ahead of time, without a live client runtime.
    ServerRender,
    /// A live runtime attaches to markup transmitted by a server pass.
    ClientHydrate,
    /// A live runtime renders with no prior markup.
    ClientRender,
}

/// The state a server pass serializes into its markup for the client to
/// reuse: the resource's key and resolved value, and the counter's settled
/// value.
#[derive(Clone, Copy, PartialEq, Eq, Debug)]
pub struct Payload {
    /// The resource's key at serialization time.
    pub res_key: u64,
    /// The resource's resolved value for that key.
    pub res_value: u64,
    /// The counter signal's settled value.
    pub count: u64,
}

/// What the driving runtime must do after a step.
#[derive(Clone, Copy, PartialEq, Eq, Debug)]
pub enum Action {
    /// Run the resource's fetch for this key and hand the outcome back
    /// through [`Mount::resolve`].
    Fetch(u64),
    /// Nothing to do outside.
    Idle,
}

/// One mount of the view: a counter signal incremented once per body
/// execution, one resource the body awaits, and one suspense boundary.
pub struct Mount {
    /// The pass this mount runs under; never changes after creation.
    pub phase: RenderPhase,
    /// The server-transmitted payload, present exactly under hydration.
    pub payload: Option<Payload>,
    /// The mount's signals and effects.
    pub rx: Reactive,
    /// Identifier of the counter signal the body increments.
    pub count_sig: usize,
    /// The resource the body awaits.
    pub res: Resource,
    /// The boundary around the body.
    pub bnd: Boundary,
    /// Whether a transmitted entry failed to match and was discarded in
    /// favour of executing fresh — the explicit recovery policy.
    pub hydration_error: bool,
    /// Whether this mount has been torn down.
    pub disposed: bool,
}

impl Mount {
    /// The counter's current value: how many times the body's side effects
    /// have taken effect on this mount.
    pub open spec fn count(self) -> u64 {
        self.rx.values()[self.count_sig as int]
    }

    /// Parts well formed, the counter signal present, and the payload
    /// carried exactly under hydration.
    pub open spec fn wf(self) -> bool {
        &&& self.rx.wf()
        &&& self.res.wf()
        &&& self.bnd.wf()
        &&& (self.count_sig as int) < self.rx.values().len()
        &&& ((self.phase is ClientHydrate) <==> (self.payload is Some))
    }

    /// The reactive graph identical between two mounts.
    pub open spec fn rx_unchanged(pre: Mount, post: Mount) -> bool {
        &&& post.rx.values() == pre.rx.values()
        &&& post.rx.n_effects() == pre.rx.n_effects()
        &&& forall|s: int|
            0 <= s < pre.rx.values().len() ==> #[trigger] post.rx.subs_at(s) == pre.rx.subs_at(s)
        &&& forall|e: int|
            0 <= e < pre.rx.n_effects() ==> #[trigger] post.rx.effect_alive(e)
                == pre.rx.effect_alive(e)
    }

    /// Only the counter signal's value moved, to `v`, without notifying
    /// anyone; subscriptions and effects stayed.
    pub open spec fn rx_count_only(pre: Mount, post: Mount, v: u64) -> bool {
        &&& post.rx.values() == pre.rx.values().update(pre.count_sig as int, v)
        &&& post.rx.n_effects() == pre.rx.n_effects()
        &&& forall|s: int|
            0 <= s < pre.rx.values().len() ==> #[trigger] post.rx.subs_at(s) == pre.rx.subs_at(s)
        &&& forall|e: int|
            0 <= e < pre.rx.n_effects() ==> #[trigger] post.rx.effect_alive(e)
                == pre.rx.effect_alive(e)
    }

    /// Nothing about the mount moved.
    pub open spec fn unchanged(pre: Mount, post: Mount) -> bool {
        &&& post.phase == pre.phase
        &&& post.payload == pre.payload
        &&& post.count_sig == pre.count_sig
        &&& Mount::rx_unchanged(pre, post)
        &&& Resource::unchanged(pre.res, post.res)
        &&& post.bnd == pre.bnd
        &&& post.hydration_error == pre.hydration_error
        &&& post.disposed == pre.disposed
    }

    /// What a fresh mount looks like: counter at zero, resource cold,
    /// boundary unrendered, under the given phase and payload.
    pub open spec fn init_rel(
        phase: RenderPhase,
        payload: Option<Payload>,
        key: u64,
        m: Mount,
    ) -> bool {
        &&& m.phase == phase
        &&& m.payload == payload
        &&& m.count_sig == 0
        &&& m.rx.values().len() == 1
        &&& m.count() == 0
        &&& m.rx.n_effects() == 0
        &&& m.res.key == key
        &&& m.res.state is NotStarted
        &&& m.res.fetches == 0
        &&& m.res.inflight@.len() == 0
        &&& m.bnd.shown is NotRendered
        &&& m.bnd.pending == 0
        &&& m.bnd.body_runs == 0
        &&& !m.hydration_error
        &&& !m.disposed
    }

    /// Whether hydration finds a transmitted entry for the current key: the
    /// lookup the coordinator performs before any fetch decision.
    pub open spec fn hydration_hit(self) -> bool {
        &&& self.phase is ClientHydrate
        &&& self.payload matches Some(p) && p.res_key == self.res.key
    }

    /// What the first render does. On a hydration hit the transmitted state
    /// is adopted whole: the counter is restored, the resource resolves from
    /// the cached value without fetching, the content shows, and the body
    /// does not run. Otherwise — server pass, pure client pass, or a
    /// mismatched payload discarded as a hydration error — the body executes
    /// fresh: it awaits the resource, whose one fetch starts, and the
    /// fallback shows until that fetch lands.
    pub open spec fn render_rel(pre: Mount, post: Mount, act: Action) -> bool {
        &&& post.phase == pre.phase
        &&& post.payload == pre.payload
        &&& post.count_sig == pre.count_sig
        &&& post.disposed == false
        &&& post.res.key == pre.res.key
        &&& post.bnd.body_runs == 0
        &&& if pre.hydration_hit() {
            &&& post.count() == pre.payload->Some_0.count
            &&& Mount::rx_count_only(pre, post, pre.payload->Some_0.count)
            &&& post.res.state == ResState::Ready(pre.payload->Some_0.res_value)
            &&& post.res.fetches == pre.res.fetches
            &&& post.res.inflight@ == pre.res.inflight@
            &&& post.bnd.shown is Content
            &&& post.bnd.pending == 0
            &&& post.hydration_error == false
            &&& act is Idle
        } else {
            &&& Mount::rx_unchanged(pre, post)
            &&& post.count() == pre.count()
            &&& post.res.state is Pending
            &&& post.res.fetches == pre.res.fetches + 1
            &&& post.res.inflight@ == pre.res.inflight@.push(pre.res.key)
            &&& post.bnd.shown is Fallback
            &&& post.bnd.pending == 1
            &&& post.hydration_error == (pre.phase is ClientHydrate)
            &&& act == Action::Fetch(pre.res.key)
        }
    }

    /// What landing the outcome of the fetch for key `k` does. On a
    /// disposed mount: nothing — no signal is written, the boundary is not
    /// re-entered, the outcome is swallowed. Otherwise the resource decides
    /// (key compared at completion time); if the outcome is adopted, the
    /// body's continuation runs to completion exactly once — the counter
    /// moves up by one, untracked — and the content shows.
    pub open spec fn resolve_rel(
        pre: Mount,
        k: u64,
        res: Result<u64, u64>,
        post: Mount,
        accepted: bool,
    ) -> bool {
        if pre.disposed {
            &&& Mount::unchanged(pre, post)
            &&& accepted == false
        } else {
            &&& post.phase == pre.phase
            &&& post.payload == pre.payload
            &&& post.count_sig == pre.count_sig
            &&& post.hydration_error == pre.hydration_error
            &&& post.disposed == false
            &&& Resource::complete_rel(pre.res, k, res, post.res, accepted)
            &&& if accepted {
                &&& post.count() == pre.count() + 1
                &&& Mount::rx_count_only(pre, post, (pre.count() + 1) as u64)
                &&& post.bnd.shown is Content
                &&& post.bnd.pending == 0
                &&& post.bnd.body_runs == pre.bnd.body_runs + 1
            } else {
                &&& Mount::rx_unchanged(pre, post)
                &&& post.count() == pre.count()
                &&& post.bnd == pre.bnd
            }
        }
    }

    /// What a change of the resource's key signal does. An equal key changes
    /// nothing. A new key re-runs the body, which suspends on the reset
    /// resource: the fallback shows again, a fetch for the new key starts
    /// unless one is already in flight, and the body's completed-run count
    /// is untouched until the new key's outcome lands.
    pub open spec fn set_key_rel(pre: Mount, k: u64, post: Mount, act: Action) -> bool {
        &&& post.phase == pre.phase
        &&& post.payload == pre.payload
        &&& post.count_sig == pre.count_sig
        &&& post.hydration_error == pre.hydration_error
        &&& post.disposed == pre.disposed
        &&& Mount::rx_unchanged(pre, post)
        &&& post.count() == pre.count()
        &&& if k == pre.res.key {
            &&& Resource::unchanged(pre.res, post.res)
            &&& post.bnd == pre.bnd
            &&& act is Idle
        } else {
            &&& post.res.key == k
            &&& post.res.state is Pending
            &&& post.bnd.shown is Fallback
            &&& post.bnd.pending == 1
            &&& post.bnd.body_runs == pre.bnd.body_runs
            &&& if pre.res.inflight@.contains(k) {
                &&& post.res.inflight@ == pre.res.inflight@
                &&& post.res.fetches == pre.res.fetches
                &&& act is Idle
            } else {
                &&& post.res.inflight@ == pre.res.inflight@.push(k)
                &&& post.res.fetches == pre.res.fetches + 1
                &&& act == Action::Fetch(k)
            }
        }
    }

    /// What teardown does: every subscription is dropped — a resolution
    /// arriving later finds no signal to write — and the mount is marked
    /// disposed. Signal values are left readable for diagnostics.
    pub open spec fn dispose_rel(pre: Mount, post: Mount) -> bool {
        &&& post.phase == pre.phase
        &&& post.payload == pre.payload
        &&& post.count_sig == pre.count_sig
        &&& post.rx.values() == pre.rx.values()
        &&& post.rx.n_effects() == pre.rx.n_effects()
        &&& forall|s: int|
            0 <= s < pre.rx.values().len() ==> #[trigger] post.rx.subs_at(s).len() == 0
        &&& Resource::unchanged(pre.res, post.res)
        &&& post.bnd == pre.bnd
        &&& post.hydration_error == pre.hydration_error
        &&& post.disposed == true
    }

    /// A fresh mount under `phase`, with the counter signal at zero and the
    /// resource keyed by `key`. A hydrating mount is handed the transmitted
    /// payload; any other mount has none.
    pub fn new(phase: RenderPhase, payload: Option<Payload>, key: u64) -> (m: Mount)
        requires
            (phase is ClientHydrate) == (payload is Some),
        ensures
            m.wf(),
            Mount::init_rel(phase, payload, key, m),
    {
        let mut rx = Reactive::new();
        let count_sig = rx.create_signal(0);
        Mount {
            phase,
            payload,
            rx,
            count_sig,
            res: Resource::new(key),
            bnd: Boundary::new(),
            hydration_error: false,
            disposed: false,
        }
    }

    /// The child body's first pass: it awaits the cold resource, whose one
    /// fetch starts, and the boundary suspends.
    fn start_body(&mut self) -> (act: Action)
        requires
            old(self).wf(),
            old(self).res.state is NotStarted,
            old(self).res.inflight@.len() == 0,
            old(self).res.fetches < u64::MAX,
        ensures
            final(self).wf(),
            final(self).phase == old(self).phase,
            final(self).payload == old(self).payload,
            final(self).count_sig == old(self).count_sig,
            final(self).hydration_error == old(self).hydration_error,
            final(self).disposed == old(self).disposed,
            Mount::rx_unchanged(*old(self), *final(self)),
            final(self).res.key == old(self).res.key,
            final(self).res.state is Pending,
            final(self).res.fetches == old(self).res.fetches + 1,
            final(self).res.inflight@ == old(self).res.inflight@.push(old(self).res.key),
            final(self).bnd.shown is Fallback,
            final(self).bnd.pending == 1,
            final(self).bnd.body_runs == old(self).bnd.body_runs,
            act == Action::Fetch(old(self).res.key),
    {
        let _ = self.res.get();
        self.bnd.suspend();
        Action::Fetch(self.res.key)
    }

    /// The first render of the mount, per the phase-dependent execution
    /// policy described by [`Mount::render_rel`]. The hydration lookup
    /// happens here, before any fetch decision.
    pub fn render(&mut self) -> (act: Action)
        requires
            old(self).wf(),
            old(self).bnd.shown is NotRendered,
            old(self).res.state is NotStarted,
            old(self).res.inflight@.len() == 0,
            old(self).res.fetches < u64::MAX,
            !old(self).disposed,
            !old(self).hydration_error,
        ensures
            final(self).wf(),
            Mount::render_rel(*old(self), *final(self), act),
    {
        match (self.phase, self.payload) {
            (RenderPhase::ClientHydrate, Some(p)) => {
                if p.res_key == self.res.key {
                    self.rx.write_untracked(self.count_sig, p.count);
                    self.res.state = ResState::Ready(p.res_value);
                    self.bnd.adopt();
                    Action::Idle
                } else {
                    self.hydration_error = true;
                    self.start_body()
                }
            },
            _ => self.start_body(),
        }
    }

    /// Lands the outcome of the fetch for key `k`, as described by
    /// [`Mount::resolve_rel`]; `accepted` reports whether the outcome was
    /// adopted or swallowed as stale or post-disposal.
    pub fn resolve(&mut self, k: u64, outcome: Result<u64, u64>) -> (accepted: bool)
        requires
            old(self).wf(),
            !old(self).disposed ==> old(self).res.inflight@.contains(k),
            old(self).count() < u64::MAX,
            old(self).bnd.body_runs < u64::MAX,
        ensures
            final(self).wf(),
            Mount::resolve_rel(*old(self), k, outcome, *final(self), accepted),
    {
        if self.disposed {
            return false;
        }
        let accepted = self.res.complete(k, outcome);
        if accepted {
            let c = self.rx.read_untracked(self.count_sig);
            self.rx.write_untracked(self.count_sig, c + 1);
            self.bnd.settle();
        }
        accepted
    }

    /// The resource's key signal changed value, as described by
    /// [`Mount::set_key_rel`].
    pub fn set_key(&mut self, k: u64) -> (act: Action)
        requires
            old(self).wf(),
            !old(self).disposed,
            !(old(self).bnd.shown is NotRendered),
            old(self).res.fetches < u64::MAX,
        ensures
            final(self).wf(),
            Mount::set_key_rel(*old(self), k, *final(self), act),
    {
        let changed = self.res.set_key(k);
        if !changed {
            return Action::Idle;
        }
        let out = self.res.get();
        self.bnd.suspend();
        match out {
            GetOutcome::Suspended { started } => {
                if started {
                    Action::Fetch(k)
                } else {
                    Action::Idle
                }
            },
            _ => Action::Idle,
        }
    }

    /// Tears the mount down, as described by [`Mount::dispose_rel`].
    pub fn dispose(&mut self)
        requires
            old(self).wf(),
        ensures
            final(self).wf(),
            Mount::dispose_rel(*old(self), *final(self)),
    {
        self.rx.dispose_all();
        self.disposed = true;
    }

    /// The counter signal's current value, read untracked: observing it
    /// creates no reactive dependency.
    pub fn counter_value(&self) -> (c: u64)
        requires
            self.wf(),
        ensures
            c == self.count(),
    {
        self.rx.read_untracked(self.count_sig)
    }

    /// The payload a finished server pass embeds into the transmitted
    /// markup: the resource's key and resolved value, and the counter's
    /// settled value, for a hydrating client to adopt.
    pub fn serialize(&self) -> (p: Payload)
        requires
            self.wf(),
            self.phase is ServerRender,
            self.res.state is Ready,
        ensures
            p.res_key == self.res.key,
            self.res.state matches ResState::Ready(v) ==> p.res_value == v,
            p.count == self.count(),
    {
        let v = match self.res.state {
            ResState::Ready(value) => value,
            _ => 0,
        };
        Payload { res_key: self.res.key, res_value: v, count: self.rx.read_untracked(self.count_sig) }
    }
}

} // verus!
