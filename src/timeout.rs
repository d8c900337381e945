//! Deadline enforcement: an operation that is not done by its deadline fails.
//!
//! Time is a count of nanoseconds since an origin that the caller picks and
//! keeps.
use vstd::prelude::*;
use crate::error::{Error, Status};
use crate::rate_limit::window_end;

verus! {

/// What one poll of a raced operation gives: the operation's own completion
/// where it has one, whatever the time; else `Elapsed` from the deadline on;
/// else still in flight.
pub open spec fn race_outcome<V, E>(inner: Status<V, E>, deadline: u64, now: u64) -> Status<
    V,
    Error<E>,
> {
    match inner {
        Status::Ready(v) => Status::Ready(v),
        Status::Failed(e) => Status::Failed(Error::Inner(e)),
        Status::NotReady => {
            if now >= deadline {
                Status::Failed(Error::Elapsed)
            } else {
                Status::NotReady
            }
        },
    }
}

/// A limit on how long each call may take.
#[derive(Clone, Copy)]
pub struct Timeout {
    timeout: u64,
}

impl Timeout {
    /// The time each call is given, in nanoseconds.
    pub closed spec fn spec_timeout(&self) -> u64 {
        self.timeout
    }

    /// A limit of `timeout` nanoseconds per call; it must be positive.
    pub fn new(timeout: u64) -> (r: Timeout)
        requires
            timeout > 0,
        ensures
            r.spec_timeout() == timeout,
    {
        Timeout { timeout }
    }

    /// The time each call is given, in nanoseconds.
    pub fn timeout(&self) -> (r: u64)
        ensures
            r == self.spec_timeout(),
    {
        self.timeout
    }

    /// Starts the race of a call made at `now`; its deadline is fixed here
    /// and never moves.
    pub fn call(&self, now: u64) -> (r: Deadline)
        ensures
            r.spec_at() == window_end(now, self.spec_timeout()),
    {
        Deadline { at: now.saturating_add(self.timeout) }
    }
}

/// The fixed deadline of one call.
#[derive(Clone, Copy)]
pub struct Deadline {
    at: u64,
}

impl Deadline {
    /// The instant at which the call fails if it is not done.
    pub closed spec fn spec_at(&self) -> u64 {
        self.at
    }

    /// The instant at which the call fails if it is not done.
    pub fn at(&self) -> (r: u64)
        ensures
            r == self.spec_at(),
    {
        self.at
    }

    /// Polls the race at `now`, given what the operation reported.
    pub fn poll<V, E>(&self, inner: Status<V, E>, now: u64) -> (r: Status<V, Error<E>>)
        ensures
            r == race_outcome(inner, self.spec_at(), now),
    {
        match inner {
            Status::NotReady => {
                if now >= self.at {
                    Status::Failed(Error::Elapsed)
                } else {
                    Status::NotReady
                }
            },
            done => done.lift(),
        }
    }
}

/// An operation raced against a deadline yields its own value or error when
/// it completes, whenever that is; it fails with `Elapsed` only when it is
/// still in flight at or after the deadline, never before.
pub proof fn lemma_race<V, E>(inner: Status<V, E>, deadline: u64, now: u64)
    ensures
        inner matches Status::Ready(v) ==> race_outcome(inner, deadline, now) == Status::<
            V,
            Error<E>,
        >::Ready(v),
        inner matches Status::Failed(e) ==> race_outcome(inner, deadline, now) == Status::<
            V,
            Error<E>,
        >::Failed(Error::Inner(e)),
        race_outcome(inner, deadline, now) == Status::<V, Error<E>>::Failed(Error::Elapsed)
            <==> (inner is NotReady && now >= deadline),
{
}

} // verus!
