//! The engine's cross-step guarantees.
//!
//! Each law quantifies over the states a run passes through and assumes of
//! them exactly what the step functions' contracts ensure — the step
//! relations of [`crate::mount`] and [`crate::resource`] — concluding what
//! must hold at the end of the run, for every key, value, and phase.

use vstd::prelude::*;
use crate::list;
use crate::mount::{Action, Mount, Payload, RenderPhase};
use crate::reactive::Reactive;
use crate::resource::{GetOutcome, Resource};

verus! {

/// Exactly once under hydration: a server pass (first render, then the
/// fetch's resolution) runs the body once, leaving the counter at 1; a
/// client that hydrates from the serialized payload of that pass reaches
/// the same displayed state with the counter still 1 — never 2 — without
/// running the body and without fetching.
pub proof fn lemma_exactly_once_under_hydration(
    key: u64,
    v: u64,
    s0: Mount,
    s1: Mount,
    a1: Action,
    s2: Mount,
    p: Payload,
    c0: Mount,
    c1: Mount,
    a2: Action,
)
    requires
        Mount::init_rel(RenderPhase::ServerRender, Option::None, key, s0),
        Mount::render_rel(s0, s1, a1),
        Mount::resolve_rel(s1, key, Ok(v), s2, true),
        p.res_key == s2.res.key,
        p.res_value == v,
        p.count == s2.count(),
        Mount::init_rel(RenderPhase::ClientHydrate, Some(p), key, c0),
        Mount::render_rel(c0, c1, a2),
    ensures
        s2.count() == 1,
        s2.bnd.body_runs == 1,
        s2.res.fetches == 1,
        c1.count() == 1,
        c1.bnd.body_runs == 0,
        c1.res.fetches == 0,
        a2 is Idle,
        c1.bnd.shown is Content,
        !c1.hydration_error,
{
    assert(!s0.hydration_hit());
    assert(c0.hydration_hit());
}

/// Exactly once under pure client render: with no server payload to reuse,
/// the body runs once and fetches once; after the fetch settles the counter
/// is 1, exactly as under a server pass.
pub proof fn lemma_exactly_once_client_render(
    key: u64,
    v: u64,
    m0: Mount,
    m1: Mount,
    a1: Action,
    m2: Mount,
)
    requires
        Mount::init_rel(RenderPhase::ClientRender, Option::None, key, m0),
        Mount::render_rel(m0, m1, a1),
        Mount::resolve_rel(m1, key, Ok(v), m2, true),
    ensures
        m2.count() == 1,
        m2.bnd.body_runs == 1,
        m2.res.fetches == 1,
        m2.bnd.shown is Content,
        a1 == Action::Fetch(key),
{
    assert(!m0.hydration_hit());
}

/// Resource cache reuse: at first render, a hydrating mount whose payload
/// matches the resource's key performs no fetch at all, while a server or
/// pure-client mount starts exactly one.
pub proof fn lemma_resource_cache_reuse(
    phase: RenderPhase,
    payload: Option<Payload>,
    key: u64,
    m0: Mount,
    m1: Mount,
    act: Action,
)
    requires
        Mount::init_rel(phase, payload, key, m0),
        Mount::render_rel(m0, m1, act),
        phase is ClientHydrate ==> (payload matches Some(p) && p.res_key == key),
    ensures
        phase is ClientHydrate ==> m1.res.fetches == 0 && act is Idle,
        !(phase is ClientHydrate) ==> m1.res.fetches == 1 && act == Action::Fetch(key),
{
}

/// No double fetch for one key: from a cold slot, two awaited reads before
/// completion cause exactly one fetch — the second joins the flight — and
/// once that fetch lands, both readers observe the same resolved value.
pub proof fn lemma_no_double_fetch(
    key: u64,
    v: u64,
    r0: Resource,
    r1: Resource,
    o1: GetOutcome,
    r2: Resource,
    o2: GetOutcome,
    r3: Resource,
    r4: Resource,
    o4: GetOutcome,
    r5: Resource,
    o5: GetOutcome,
)
    requires
        r0.wf(),
        r0.key == key,
        r0.state is NotStarted,
        r0.inflight@.len() == 0,
        Resource::get_rel(r0, r1, o1),
        Resource::get_rel(r1, r2, o2),
        Resource::complete_rel(r2, key, Ok(v), r3, true),
        Resource::get_rel(r3, r4, o4),
        Resource::get_rel(r4, r5, o5),
    ensures
        r2.fetches == r0.fetches + 1,
        o1 == (GetOutcome::Suspended { started: true }),
        o2 == (GetOutcome::Suspended { started: false }),
        o4 == GetOutcome::Available(v),
        o5 == GetOutcome::Available(v),
{
}

/// Re-suspension on key change: after a settle, a key changed in value
/// shows the fallback again without touching the counter, and when the new
/// key's fetch lands the body has run exactly once more — whatever the
/// phase the mount was created under.
pub proof fn lemma_resuspension_on_key_change(
    k2: u64,
    v2: u64,
    m0: Mount,
    m1: Mount,
    a1: Action,
    m2: Mount,
)
    requires
        !m0.disposed,
        m0.bnd.shown is Content,
        k2 != m0.res.key,
        Mount::set_key_rel(m0, k2, m1, a1),
        Mount::resolve_rel(m1, k2, Ok(v2), m2, true),
    ensures
        m1.bnd.shown is Fallback,
        m1.bnd.body_runs == m0.bnd.body_runs,
        m1.count() == m0.count(),
        m2.bnd.shown is Content,
        m2.bnd.body_runs == m0.bnd.body_runs + 1,
        m2.count() == m0.count() + 1,
{
}

/// Disposal safety: a fetch outcome landing after the mount was torn down
/// is swallowed whole — nothing is accepted, no signal is written, the
/// boundary is not re-entered, and every subscriber list stays empty.
pub proof fn lemma_disposal_safety(
    k: u64,
    out: Result<u64, u64>,
    m0: Mount,
    m1: Mount,
    m2: Mount,
    accepted: bool,
)
    requires
        Mount::dispose_rel(m0, m1),
        Mount::resolve_rel(m1, k, out, m2, accepted),
    ensures
        !accepted,
        Mount::unchanged(m1, m2),
        m2.count() == m1.count(),
        forall|s: int| 0 <= s < m2.rx.values().len() ==> #[trigger] m2.rx.subs_at(s).len() == 0,
{
    assert forall|s: int|
        0 <= s < m2.rx.values().len() implies #[trigger] m2.rx.subs_at(s).len() == 0 by {
        assert(m2.rx.subs_at(s) == m1.rx.subs_at(s));
        assert(m1.rx.subs_at(s).len() == 0);
    }
}

/// A disposed effect is never scheduled again: once its subscriptions are
/// dropped, no signal's subscriber list holds it, so no write returns it.
pub proof fn lemma_disposed_effect_not_scheduled(rx0: Reactive, rx1: Reactive, e: usize)
    requires
        rx1.values().len() == rx0.values().len(),
        forall|s: int|
            0 <= s < rx0.values().len() ==> #[trigger] rx1.subs_at(s) == list::without_usize(
                rx0.subs_at(s),
                e,
            ),
    ensures
        forall|s: int| 0 <= s < rx1.values().len() ==> !(#[trigger] rx1.subs_at(s)).contains(e),
{
    assert forall|s: int|
        0 <= s < rx1.values().len() implies !(#[trigger] rx1.subs_at(s)).contains(e) by {
        list::lemma_without_usize_props(rx0.subs_at(s), e);
        if rx1.subs_at(s).contains(e) {
            let k = choose|k: int| 0 <= k < rx1.subs_at(s).len() && rx1.subs_at(s)[k] == e;
            assert(list::without_usize(rx0.subs_at(s), e)[k] != e);
        }
    }
}

} // verus!
