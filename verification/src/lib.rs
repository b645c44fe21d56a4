//! A shared worldstate cache: one continuously refreshed snapshot of a remote
//! game-state document, published to many concurrent readers by a single
//! background writer.
//!
//! The cache protocol is the heart of the crate: how a snapshot is stored,
//! read as a complete copy, replaced only when it actually changed, and how
//! fetch or parse failures are absorbed without ever corrupting the stored
//! value. Fetching bytes from upstream and parsing them into a snapshot are
//! external collaborators; the crate only decides what to do with their
//! outcomes.

pub mod laws;
pub mod refresh;
pub mod snapshot;
pub mod store;
pub mod surface;
