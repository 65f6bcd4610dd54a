//! Core of a desktop database client: a verified connection registry,
//! dialect-aware SQL composition, a per-dialect value mapper into a JSON
//! scalar domain, and a streaming executor with batching and cancellation.
//! Network, file and SSH transport live outside this crate; the logic that
//! decides what to send and what each answer means lives here.
pub mod idmap;
pub mod text;
pub mod types;
pub mod config;
pub mod ai;
pub mod laws;
pub mod sqlbuild;
pub mod value;
pub mod registry;
pub mod stream;
pub mod engine;
pub mod import;
pub mod export;
pub mod tunnel;
