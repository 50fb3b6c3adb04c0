//! Mount-level scenarios: the phase-dependent execution policy, hydration
//! reuse, re-suspension, stale outcomes, and disposal.

use suspense_core::boundary::Shown;
use suspense_core::mount::{Action, Mount, Payload, RenderPhase};
use suspense_core::resource::{GetOutcome, ResState};

/// Drives a whole server pass for `key`: render, run the requested fetch,
/// land its outcome, and serialize the settled state.
fn server_pass(key: u64, value: u64) -> Payload {
    let mut server = Mount::new(RenderPhase::ServerRender, None, key);
    let act = server.render();
    assert_eq!(act, Action::Fetch(key));
    assert_eq!(server.bnd.shown, Shown::Fallback);
    let accepted = server.resolve(key, Ok(value));
    assert!(accepted);
    assert_eq!(server.counter_value(), 1);
    assert_eq!(server.bnd.body_runs, 1);
    assert_eq!(server.bnd.shown, Shown::Content);
    server.serialize()
}

#[test]
fn server_then_hydrate_counts_once() {
    // The view declares count = 0, mounts under ServerRender, and the body
    // increments count after awaiting the resource; the payload carries
    // count = 1 and the resource's result. Hydration must reuse both.
    let payload = server_pass(7, 42);
    assert_eq!(payload, Payload { res_key: 7, res_value: 42, count: 1 });

    let mut client = Mount::new(RenderPhase::ClientHydrate, Some(payload), 7);
    let act = client.render();
    assert_eq!(act, Action::Idle);
    assert_eq!(client.counter_value(), 1); // 1, never 2
    assert_eq!(client.bnd.body_runs, 0); // the body did not re-execute
    assert_eq!(client.res.fetches, 0); // no fetch during hydration
    assert_eq!(client.res.state, ResState::Ready(42));
    assert_eq!(client.bnd.shown, Shown::Content);
    assert!(!client.hydration_error);
}

#[test]
fn client_render_counts_once() {
    let mut m = Mount::new(RenderPhase::ClientRender, None, 3);
    let act = m.render();
    assert_eq!(act, Action::Fetch(3));
    assert_eq!(m.bnd.shown, Shown::Fallback);
    let accepted = m.resolve(3, Ok(9));
    assert!(accepted);
    assert_eq!(m.counter_value(), 1);
    assert_eq!(m.bnd.body_runs, 1);
    assert_eq!(m.res.fetches, 1);
    assert_eq!(m.bnd.shown, Shown::Content);
}

#[test]
fn hydration_mismatch_discards_and_runs_fresh() {
    // A payload keyed for another resource value must not be adopted: the
    // mismatch is flagged and the body executes fresh instead.
    let payload = Payload { res_key: 9, res_value: 42, count: 1 };
    let mut client = Mount::new(RenderPhase::ClientHydrate, Some(payload), 7);
    let act = client.render();
    assert_eq!(act, Action::Fetch(7));
    assert!(client.hydration_error);
    assert_eq!(client.bnd.shown, Shown::Fallback);
    assert_eq!(client.counter_value(), 0);
    let accepted = client.resolve(7, Ok(41));
    assert!(accepted);
    assert_eq!(client.counter_value(), 1);
    assert_eq!(client.bnd.body_runs, 1);
    assert_eq!(client.res.state, ResState::Ready(41));
}

#[test]
fn key_change_resuspends_once() {
    let mut m = Mount::new(RenderPhase::ClientRender, None, 1);
    m.render();
    m.resolve(1, Ok(10));
    assert_eq!(m.counter_value(), 1);

    // An equal key changes nothing.
    let act = m.set_key(1);
    assert_eq!(act, Action::Idle);
    assert_eq!(m.bnd.shown, Shown::Content);
    assert_eq!(m.res.fetches, 1);

    // A new key suspends again and runs the body exactly once more.
    let act = m.set_key(2);
    assert_eq!(act, Action::Fetch(2));
    assert_eq!(m.bnd.shown, Shown::Fallback);
    assert_eq!(m.bnd.body_runs, 1);
    let accepted = m.resolve(2, Ok(20));
    assert!(accepted);
    assert_eq!(m.counter_value(), 2);
    assert_eq!(m.bnd.body_runs, 2);
    assert_eq!(m.res.fetches, 2);
    assert_eq!(m.bnd.shown, Shown::Content);
}

#[test]
fn stale_outcome_discarded() {
    // The key changes while the first fetch is in flight: when that fetch
    // lands it is compared against the current key and discarded.
    let mut m = Mount::new(RenderPhase::ClientRender, None, 1);
    m.render();
    let act = m.set_key(2);
    assert_eq!(act, Action::Fetch(2));
    let accepted = m.resolve(1, Ok(10));
    assert!(!accepted);
    assert_eq!(m.counter_value(), 0);
    assert_eq!(m.bnd.shown, Shown::Fallback);
    let accepted = m.resolve(2, Ok(20));
    assert!(accepted);
    assert_eq!(m.counter_value(), 1);
    assert_eq!(m.res.state, ResState::Ready(20));
}

#[test]
fn key_change_back_joins_stale_flight() {
    // Away and back while the first fetch is still in flight: the second
    // change finds that key's flight still up and joins it instead of
    // starting a second fetch for the same key.
    let mut m = Mount::new(RenderPhase::ClientRender, None, 1);
    m.render();
    assert_eq!(m.res.fetches, 1);
    let act = m.set_key(2);
    assert_eq!(act, Action::Fetch(2));
    let act = m.set_key(1);
    assert_eq!(act, Action::Idle);
    assert_eq!(m.res.fetches, 2);
    let accepted = m.resolve(1, Ok(10));
    assert!(accepted);
    assert_eq!(m.counter_value(), 1);
}

#[test]
fn disposal_swallows_resolution() {
    let mut m = Mount::new(RenderPhase::ClientRender, None, 5);
    let act = m.render();
    assert_eq!(act, Action::Fetch(5));
    m.dispose();
    assert!(m.disposed);
    // The fetch resolves after teardown: a no-op, not an error.
    let accepted = m.resolve(5, Ok(50));
    assert!(!accepted);
    assert_eq!(m.counter_value(), 0);
    assert_eq!(m.bnd.body_runs, 0);
    assert_eq!(m.bnd.shown, Shown::Fallback);
}

#[test]
fn fetch_failure_is_typed() {
    let mut m = Mount::new(RenderPhase::ClientRender, None, 4);
    m.render();
    let accepted = m.resolve(4, Err(5));
    assert!(accepted);
    assert_eq!(m.res.state, ResState::Errored(5));
    // The body resumed with the typed failure and ran to completion.
    assert_eq!(m.counter_value(), 1);
    assert_eq!(m.bnd.shown, Shown::Content);
    // A later await surfaces the same typed failure, without a new fetch.
    let out = m.res.get();
    assert_eq!(out, GetOutcome::Failed(5));
    assert_eq!(m.res.fetches, 1);
}

#[test]
fn serialize_reports_settled_state() {
    let mut server = Mount::new(RenderPhase::ServerRender, None, 11);
    server.render();
    server.resolve(11, Ok(110));
    let p = server.serialize();
    assert_eq!(p.res_key, 11);
    assert_eq!(p.res_value, 110);
    assert_eq!(p.count, 1);
}
