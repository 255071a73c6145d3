//! Bounded process-local diagnostics of headless agent runtimes.
pub mod kinds;
pub mod identity;
pub mod records;
pub mod memory;
pub mod metrics;
pub mod status;
pub mod snapshots;
pub mod publisher;
