//! Address lookup core for a read-only blockchain explorer gateway: chain
//! selector resolution, pagination arithmetic, upstream reply reconciliation
//! and the success/error response envelopes.
pub mod chain;
pub mod lookup;
pub mod models;
pub mod text;
pub mod pagination;
