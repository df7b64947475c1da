//! A verified model of a small global-statistics service.
//!
//! The service keeps one statistics document (an online-user counter and a
//! download counter) in a document store, exposes it through a read endpoint
//! and an update endpoint behind a shared admin code, and appends a
//! diagnostic report whenever a store operation fails.
//!
//! Everything that decides — the admin gate, get-or-create, payload
//! validation, delta computation, error shaping — lives here and is
//! verified. The surrounding process (HTTP routing, the database driver)
//! performs the store operations and hands their outcomes back to the
//! decision functions.

pub mod error;
pub mod handlers;
pub mod laws;
pub mod payload;
pub mod report;
pub mod stats;
pub mod store;
