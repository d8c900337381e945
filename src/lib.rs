//! Resource-governance middleware for two-phase request handlers: admission
//! control, windowed rate limiting, deadline enforcement and rebinding on
//! configuration change.
//!
//! Each component keeps the decisions that govern it here, as state machines
//! over plain values; the asynchronous plumbing that drives a handler calls them.

mod error;
mod in_flight;
mod rate_limit;
mod timeout;
mod watch;

pub use error::{Error, Status};

pub use rate_limit::{
    call_step, calls_at, lemma_quota_per_window, ready_step, resolve_limited, window_end, Rate,
    RateLimit, RateLimitLayer, State,
};
pub use in_flight::{
    counter_step, lemma_admissions_bounded, lemma_no_double_reservation,
    lemma_released_exactly_once, ready_transition, release_outcome, release_reported, run_steps,
    slots_taken, total_taken, InFlightLimit, Readiness, Release, Shared, Ticket,
};
pub use timeout::{lemma_race, race_outcome, Deadline, Timeout};
pub use watch::{
    lemma_latest_bound, lemma_pinned_after_close, rebind_step, run_updates, update_of, Bind, Update,
    WatchService,
};
