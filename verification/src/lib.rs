//! Core of a phase-aware reactive rendering engine.
//!
//! A view declares signals (observable mutable cells), effects (reactive
//! computations re-run when their tracked reads change), resources
//! (asynchronous computations keyed by a reactive input), and a suspense
//! boundary that shows a fallback while a resource is pending. The same view
//! may be rendered on a server and then resumed (hydrated) on a client, or
//! rendered on a client alone; the central guarantee of this crate is that an
//! asynchronous render body guarded by a suspense boundary executes its side
//! effects exactly once per logical navigation, whichever way the tree came
//! to the client.
//!
//! The engine is a state machine: all outside work (running a fetch, running
//! an effect's closure, producing markup) is performed by a driving runtime,
//! which feeds outcomes back in through explicit steps. Every decision — when
//! a fetch starts, when a body runs, what a hydrating client reuses — is made
//! here and carries a proved contract.

pub mod list;
pub mod reactive;
pub mod resource;
pub mod boundary;
pub mod mount;
pub mod laws;
