//! Per-tenant SMTP dispatch: resolves a tenant's stored mail settings into a
//! concrete transport plan (TLS mode, port, credentials, timeout), builds the
//! outgoing message and transport through lettre, and reports configuration,
//! address and transport failures as a closed set of error kinds.
//!
//! Network activity itself (the actual SMTP transaction) is performed by the
//! caller on the prepared transport; everything up to that point is decided
//! here.

pub mod config;
pub mod error;
pub mod plan;
pub mod transport;
