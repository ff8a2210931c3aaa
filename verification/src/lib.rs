//! Read path of a multi-cloud object-storage proxy.
//!
//! Clients address objects by a logical (bucket, key, version) identity; a
//! directory service maps each logical identity to physical copies held in
//! different cloud regions.  This crate holds the verified core of the read
//! path: resolving a logical reference to a physical locator, deciding whether
//! to serve from the local region or pull from a remote one, fanning a fetched
//! body out to the client response and to background replication, and the
//! reserve-then-commit metadata protocol that keeps the directory consistent
//! with physical storage.  The unverified shell around it (HTTP, cloud-store
//! adapters, task spawning) lives outside this crate and only carries plain
//! values in and out.

pub mod api;
pub mod directory;
pub mod driver;
pub mod errors;
pub mod models;
pub mod read_path;
pub mod replication;
pub mod splitter;
pub mod store;
