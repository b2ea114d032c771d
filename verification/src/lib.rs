//! Verified core of an event-stream ingestion pipeline for a decentralized
//! social network: cursor bookkeeping, per-collection dispatch, profile
//! ingestion, identity resolution, and the idempotent upsert contract.
//!
//! Events are processed in stream order by a single worker, so the cursor
//! invariant (never decreasing, advanced only past fully-handled events)
//! follows from the contracts here; the network and storage sides live
//! outside the library and feed it plain values.

pub mod cursor;
pub mod did;
pub mod doc;
pub mod errors;
pub mod event;
pub mod handle;
pub mod ingest;
pub mod pipeline;
pub mod record;
pub mod resolve;
pub mod store;
pub mod text;
