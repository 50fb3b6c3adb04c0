//! The signal, effect, and resource primitives taken on their own.

use suspense_core::reactive::Reactive;
use suspense_core::resource::{GetOutcome, ResState, Resource};

#[test]
fn write_notifies_subscribers_in_order() {
    let mut rx = Reactive::new();
    let s = rx.create_signal(0);
    let e1 = rx.create_effect();
    let e2 = rx.create_effect();
    // e2 subscribes first, then e1; a repeated read adds no second entry.
    rx.read_tracked(s, e2);
    rx.read_tracked(s, e1);
    rx.read_tracked(s, e2);
    let notify = rx.write(s, 10);
    assert_eq!(notify, vec![e2, e1]);
    assert_eq!(rx.read_untracked(s), 10);
}

#[test]
fn untracked_read_does_not_subscribe() {
    let mut rx = Reactive::new();
    let s = rx.create_signal(1);
    let _e = rx.create_effect();
    assert_eq!(rx.read_untracked(s), 1);
    let notify = rx.write(s, 2);
    assert!(notify.is_empty());
}

#[test]
fn untracked_write_schedules_nothing_but_stores() {
    let mut rx = Reactive::new();
    let s = rx.create_signal(0);
    let e = rx.create_effect();
    rx.read_tracked(s, e);
    rx.write_untracked(s, 5);
    assert_eq!(rx.read_untracked(s), 5);
    // The subscription itself is untouched: a real write still schedules e.
    let notify = rx.write(s, 6);
    assert_eq!(notify, vec![e]);
}

#[test]
fn rerun_replaces_stale_subscriptions() {
    let mut rx = Reactive::new();
    let s1 = rx.create_signal(0);
    let s2 = rx.create_signal(0);
    let e = rx.create_effect();
    // First run tracks s1.
    rx.read_tracked(s1, e);
    // Re-run: the dependency set is rebuilt from scratch and tracks s2 only.
    rx.clear_subscriptions(e);
    rx.read_tracked(s2, e);
    assert!(rx.write(s1, 1).is_empty());
    assert_eq!(rx.write(s2, 1), vec![e]);
}

#[test]
fn disposed_effect_is_never_scheduled() {
    let mut rx = Reactive::new();
    let s1 = rx.create_signal(0);
    let s2 = rx.create_signal(0);
    let e = rx.create_effect();
    let other = rx.create_effect();
    rx.read_tracked(s1, e);
    rx.read_tracked(s1, other);
    rx.read_tracked(s2, e);
    rx.dispose_effect(e);
    assert_eq!(rx.write(s1, 1), vec![other]);
    assert!(rx.write(s2, 1).is_empty());
}

#[test]
fn teardown_drops_every_subscription() {
    let mut rx = Reactive::new();
    let s1 = rx.create_signal(0);
    let s2 = rx.create_signal(0);
    let e1 = rx.create_effect();
    let e2 = rx.create_effect();
    rx.read_tracked(s1, e1);
    rx.read_tracked(s2, e2);
    rx.dispose_all();
    assert!(rx.write(s1, 1).is_empty());
    assert!(rx.write(s2, 1).is_empty());
}

#[test]
fn pending_get_joins_flight() {
    let mut r = Resource::new(8);
    let first = r.get();
    assert_eq!(first, GetOutcome::Suspended { started: true });
    // A concurrent await of the same key joins the flight: one fetch only.
    let second = r.get();
    assert_eq!(second, GetOutcome::Suspended { started: false });
    assert_eq!(r.fetches, 1);
    let accepted = r.complete(8, Ok(80));
    assert!(accepted);
    // Both suspended callers resume against the same resolved value.
    assert_eq!(r.get(), GetOutcome::Available(80));
    assert_eq!(r.get(), GetOutcome::Available(80));
    assert_eq!(r.fetches, 1);
}

#[test]
fn ready_answers_without_refetch() {
    let mut r = Resource::new(2);
    r.get();
    r.complete(2, Ok(20));
    assert_eq!(r.state, ResState::Ready(20));
    assert_eq!(r.get(), GetOutcome::Available(20));
    assert_eq!(r.fetches, 1);
}

#[test]
fn key_change_resets_and_stale_completion_is_discarded() {
    let mut r = Resource::new(1);
    r.get();
    assert!(r.set_key(2));
    assert_eq!(r.state, ResState::NotStarted);
    let out = r.get();
    assert_eq!(out, GetOutcome::Suspended { started: true });
    // The old key's flight lands: compared against the current key, discarded.
    let accepted = r.complete(1, Ok(10));
    assert!(!accepted);
    assert_eq!(r.state, ResState::Pending);
    let accepted = r.complete(2, Ok(20));
    assert!(accepted);
    assert_eq!(r.state, ResState::Ready(20));
}

#[test]
fn equal_key_does_not_refetch() {
    let mut r = Resource::new(6);
    r.get();
    r.complete(6, Ok(60));
    assert!(!r.set_key(6));
    assert_eq!(r.state, ResState::Ready(60));
    assert_eq!(r.fetches, 1);
}
