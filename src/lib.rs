//! A host metrics agent: it samples host facts on a fixed cadence, buffers the
//! snapshots, ships them in batches and bounds its memory when delivery fails.
//!
//! Everything that decides (when to sample, when to flush, what to keep) lives
//! here and is verified; reading the host, the network and the clock is left to
//! the caller, which hands the results back as plain values.
pub mod config;
pub mod harvest;
pub mod cache;
pub mod client;
pub mod text;
pub mod models;
pub mod disks;
pub mod request;
pub mod users;
