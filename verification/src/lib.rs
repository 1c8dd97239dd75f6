//! A background maintenance service built around two pieces of state: a
//! lookup cache for domain records (with a separate, non-expiring admin
//! store) and a periodic job that migrates externally approved records and
//! resets the cache on a fixed cadence.
//!
//! The service itself is a deterministic state machine: every decision it
//! makes (time gating, cycle accounting, statistics) is a function of its
//! own state and of the events handed in by the surrounding runtime (clock
//! readings, backend process outcomes). The runtime glue - the polling
//! task, the backend subprocess, logging - lives outside this crate and
//! feeds those events in as plain values.

use vstd::prelude::*;

pub mod cache_manager;
pub mod clock;
pub mod config;
pub mod go_integration;
pub mod json;
pub mod product;
pub mod service;

pub use product::ProductData;
pub use service::DailyUpdateServiceV2;
pub use service::PollDecision;
pub use service::ServiceStats;

verus! {

/// The failure taxonomy of the service.
///
/// `NotInitialized` marks an operation invoked before setup completed and is
/// fatal to that single call only. The two backend variants are absorbed by
/// the scheduler's backoff and never propagate as fatal errors.
#[derive(Debug, Clone, Copy, PartialEq, Eq, Structural)]
pub enum ServiceError {
    /// An operation was invoked before initialization completed.
    NotInitialized,
    /// The backend process was unreachable or exited with a failure code.
    BackendUnavailable,
    /// The backend reported an error while performing a migration.
    BackendError,
}

} // verus!
