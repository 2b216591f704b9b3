//! Runtime metadata snapshots for a desktop application shell.
//!
//! The library assembles an immutable [`snapshot::AppInfo`] value from the
//! plain values the hosting shell reads from its environment: the build-time
//! version string, the host operating-system identifier, and the result of
//! resolving the per-user application-data directory. Directory-resolution
//! failure is absorbed into a sentinel string rather than surfaced as an
//! error, so assembling a snapshot always succeeds.

pub mod platform;
pub mod snapshot;
