//! A local control plane for AI-provider proxy processes: one persisted
//! configuration document with forward-compatible schema migration, a
//! supervised lifecycle for the primary proxy and the optional bridge
//! process, a status registry whose snapshots are never torn, and the
//! reconciliation that keeps running processes in step with the
//! configuration. Everything that touches the file system, the network or
//! the process table lives outside and reports plain values back in.

pub mod codec;
pub mod commands;
pub mod config;
pub mod json;
pub mod reconcile;
pub mod state;
pub mod status;
pub mod strutil;
pub mod supervisor;
pub mod types;
