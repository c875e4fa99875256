//! The core of a control plane for namespaced workloads: a versioned object
//! store, a declarative reconciliation engine, a change notifier, and the
//! projector that keeps a gateway's configuration in step with the live
//! proxy rules.
//!
//! Every operation has a contract over a mathematical model of the state:
//! the store in [`model`], the engine in [`reconcile`], the notifier in
//! [`notifier`], the gateway's files in [`projector`]. What holds of them
//! under every operation is proved in [`laws`].
//!
//! The library reads no clock and touches no file: callers hand in the time,
//! and get the steps to carry out on disk as values.

pub mod cargo;
pub mod client;
pub mod document;
pub mod error;
pub mod image;
pub mod keys;
pub mod laws;
pub mod manifest;
pub mod model;
pub mod nginx;
pub mod notifier;
pub mod projector;
pub mod proxy;
pub mod reconcile;
pub mod render;
pub mod store;
pub mod text;
