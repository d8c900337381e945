//! Fixed-window rate limiting.
//!
//! Time is a count of nanoseconds since an origin that the caller picks and
//! keeps. A window is anchored to the first call after the previous one ended,
//! and rolls forward lazily, when a call finds it over.
use vstd::prelude::*;
use crate::error::{Error, Status};

verus! {

/// A number of calls allowed per window of `per` nanoseconds.
#[derive(Clone, Copy)]
pub struct Rate {
    num: u64,
    per: u64,
}

/// The end of a window that starts at `now` and lasts `per`, held at the
/// largest instant that can be written.
pub open spec fn window_end(now: u64, per: u64) -> u64 {
    if now + per > u64::MAX {
        u64::MAX
    } else {
        (now + per) as u64
    }
}

impl Rate {
    /// The quota of calls per window.
    pub closed spec fn spec_num(&self) -> u64 {
        self.num
    }

    /// The length of a window, in nanoseconds.
    pub closed spec fn spec_per(&self) -> u64 {
        self.per
    }

    /// A rate with a positive quota and a positive window.
    pub open spec fn wf(&self) -> bool {
        self.spec_num() > 0 && self.spec_per() > 0
    }

    /// Creates a rate of `num` calls per `per` nanoseconds; both must be positive.
    pub fn new(num: u64, per: u64) -> (r: Rate)
        requires
            num > 0,
            per > 0,
        ensures
            r.wf(),
            r.spec_num() == num,
            r.spec_per() == per,
    {
        Rate { num, per }
    }

    /// Creates a rate of `num` calls per `per` nanoseconds, or `None` where
    /// either is zero: an invalid rate is refused, never adjusted.
    pub fn try_new(num: u64, per: u64) -> (r: Option<Rate>)
        ensures
            r is Some <==> (num > 0 && per > 0),
            r matches Some(rate) ==> rate.wf() && rate.spec_num() == num && rate.spec_per() == per,
    {
        if num > 0 && per > 0 {
            Some(Rate::new(num, per))
        } else {
            None
        }
    }

    /// The quota of calls per window.
    pub fn num(&self) -> (r: u64)
        ensures
            r == self.spec_num(),
    {
        self.num
    }

    /// The length of a window, in nanoseconds.
    pub fn per(&self) -> (r: u64)
        ensures
            r == self.spec_per(),
    {
        self.per
    }
}

/// Builds rate limiters that share one rate.
pub struct RateLimitLayer {
    rate: Rate,
}

impl RateLimitLayer {
    /// The rate that each limiter built by this layer applies.
    pub closed spec fn spec_rate(&self) -> Rate {
        self.rate
    }

    /// A layer for `num` calls per `per` nanoseconds; both must be positive.
    pub fn new(num: u64, per: u64) -> (r: RateLimitLayer)
        requires
            num > 0,
            per > 0,
        ensures
            r.spec_rate().wf(),
            r.spec_rate().spec_num() == num,
            r.spec_rate().spec_per() == per,
    {
        let rate = Rate::new(num, per);
        RateLimitLayer { rate }
    }

    /// The rate that each limiter built by this layer applies.
    pub fn rate(&self) -> (r: Rate)
        ensures
            r == self.spec_rate(),
    {
        self.rate
    }

    /// Wraps `service` in a limiter of this layer's rate, its first window
    /// ending at `now`.
    pub fn layer<T>(&self, service: T, now: u64) -> (r: RateLimit<T>)
        requires
            self.spec_rate().wf(),
        ensures
            r.wf(),
            r.spec_rate() == self.spec_rate(),
            r.spec_state() == (State::Ready { until: now, rem: self.spec_rate().spec_num() }),
            r.spec_inner() == service,
    {
        RateLimit::new(service, self.rate, now)
    }
}

/// Where a limiter stands.
#[derive(Clone, Copy, Debug, PartialEq, Eq, Structural)]
pub enum State {
    /// The quota of the window that ends at `until` is spent; readiness waits
    /// for that instant.
    Limited { until: u64 },
    /// `rem` calls are left in the window that ends at `until`.
    Ready { until: u64, rem: u64 },
}

/// What a readiness check makes of `state` at `now`: the next state, and
/// whether the caller may go on.
pub open spec fn ready_step(state: State, rate: Rate, now: u64) -> (State, bool) {
    match state {
        State::Ready { .. } => (state, true),
        State::Limited { until } => {
            if now >= until {
                (State::Ready { until: window_end(now, rate.spec_per()), rem: rate.spec_num() }, true)
            } else {
                (state, false)
            }
        },
    }
}

/// What a call makes of `state` at `now`: the next state, and whether the
/// request goes on to the wrapped handler.
pub open spec fn call_step(state: State, rate: Rate, now: u64) -> (State, bool) {
    match state {
        State::Limited { .. } => (state, false),
        State::Ready { until, rem } => {
            let (until, rem) = if now >= until {
                (window_end(now, rate.spec_per()), rate.spec_num())
            } else {
                (until, rem)
            };
            if rem > 1 {
                (State::Ready { until, rem: (rem - 1) as u64 }, true)
            } else {
                (State::Limited { until }, true)
            }
        },
    }
}

/// Resolves a call from what its inner operation reported: a call that the
/// limiter refused fails with `RateLimited`, and `inner` is not looked at; a
/// call that went on resolves as its operation does.
pub fn resolve_limited<V, E>(forwarded: bool, inner: Status<V, E>) -> (r: Status<V, Error<E>>)
    ensures
        !forwarded ==> r == Status::<V, Error<E>>::Failed(Error::RateLimited),
        forwarded ==> match inner {
            Status::Ready(v) => r == Status::<V, Error<E>>::Ready(v),
            Status::NotReady => r is NotReady,
            Status::Failed(e) => r == Status::<V, Error<E>>::Failed(Error::Inner(e)),
        },
{
    if forwarded {
        inner.lift()
    } else {
        Status::Failed(Error::RateLimited)
    }
}

/// The state after `n` calls at `now`, and how many of them went on.
pub open spec fn calls_at(state: State, rate: Rate, now: u64, n: nat) -> (State, nat)
    decreases n,
{
    if n == 0 {
        (state, 0)
    } else {
        let (s, c) = calls_at(state, rate, now, (n - 1) as nat);
        let (s2, ok) = call_step(s, rate, now);
        (s2, c + if ok { 1nat } else { 0nat })
    }
}

proof fn lemma_calls_in_window(rate: Rate, until: u64, rem: u64, now: u64, n: nat)
    requires
        rate.wf(),
        now < until,
        1 <= rem,
        n <= rem,
    ensures
        n < rem ==> calls_at(State::Ready { until, rem }, rate, now, n) == (
        State::Ready { until, rem: (rem - n) as u64 },
        n,
        ),
        n == rem ==> calls_at(State::Ready { until, rem }, rate, now, n) == (
        State::Limited { until },
        n,
        ),
    decreases n,
{
    if n > 0 {
        lemma_calls_in_window(rate, until, rem, now, (n - 1) as nat);
    }
}

proof fn lemma_calls_limited(rate: Rate, until: u64, now: u64, n: nat)
    ensures
        calls_at(State::Limited { until }, rate, now, n) == (State::Limited { until }, 0nat),
    decreases n,
{
    if n > 0 {
        lemma_calls_limited(rate, until, now, (n - 1) as nat);
    }
}

/// Within a window, exactly the quota of calls goes on: the calls before the
/// window ends all go on until the quota is spent, after which every call is
/// refused and readiness waits for the window's end. From that instant on
/// readiness returns, with the full quota in a fresh window.
pub proof fn lemma_quota_per_window(rate: Rate, until: u64, now: u64, later: u64, extra: nat)
    requires
        rate.wf(),
        now < until,
        until <= later,
    ensures
        calls_at(State::Ready { until, rem: rate.spec_num() }, rate, now, rate.spec_num() as nat) == (
        State::Limited { until },
        rate.spec_num() as nat,
        ),
        calls_at(State::Limited { until }, rate, now, extra) == (State::Limited { until }, 0nat),
        ready_step(State::Limited { until }, rate, now) == (State::Limited { until }, false),
        ready_step(State::Limited { until }, rate, later) == (
        State::Ready { until: window_end(later, rate.spec_per()), rem: rate.spec_num() },
        true,
        ),
{
    lemma_calls_in_window(rate, until, rate.spec_num(), now, rate.spec_num() as nat);
    lemma_calls_limited(rate, until, now, extra);
}

/// A handler wrapped by a fixed-window rate limiter.
pub struct RateLimit<T> {
    inner: T,
    rate: Rate,
    state: State,
}

impl<T> RateLimit<T> {
    /// The wrapped handler.
    pub closed spec fn spec_inner(&self) -> T {
        self.inner
    }

    /// The rate applied.
    pub closed spec fn spec_rate(&self) -> Rate {
        self.rate
    }

    /// Where the limiter stands.
    pub closed spec fn spec_state(&self) -> State {
        self.state
    }

    /// A valid rate, and a ready state with between one call and the quota left.
    pub open spec fn wf(&self) -> bool {
        &&& self.spec_rate().wf()
        &&& match self.spec_state() {
            State::Ready { rem, .. } => 1 <= rem <= self.spec_rate().spec_num(),
            State::Limited { .. } => true,
        }
    }

    /// Wraps `inner`; the first window ends at `now`, so the first call opens
    /// a new one.
    pub fn new(inner: T, rate: Rate, now: u64) -> (r: Self)
        requires
            rate.wf(),
        ensures
            r.wf(),
            r.spec_inner() == inner,
            r.spec_rate() == rate,
            r.spec_state() == (State::Ready { until: now, rem: rate.spec_num() }),
    {
        let state = State::Ready { until: now, rem: rate.num() };
        RateLimit { inner, rate, state }
    }

    /// The wrapped handler.
    pub fn get_ref(&self) -> (r: &T)
        ensures
            *r == self.spec_inner(),
    {
        &self.inner
    }

    /// The wrapped handler, to be driven in place.
    pub fn get_mut(&mut self) -> (r: &mut T)
        ensures
            *r == old(self).spec_inner(),
            final(self).spec_inner() == *final(r),
            final(self).spec_rate() == old(self).spec_rate(),
            final(self).spec_state() == old(self).spec_state(),
    {
        &mut self.inner
    }

    /// Consumes the limiter, returning the wrapped handler.
    pub fn into_inner(self) -> (r: T)
        ensures
            r == self.spec_inner(),
    {
        self.inner
    }

    /// The rate applied.
    pub fn rate(&self) -> (r: Rate)
        ensures
            r == self.spec_rate(),
    {
        self.rate
    }

    /// Where the limiter stands.
    pub fn state(&self) -> (r: State)
        ensures
            r == self.spec_state(),
    {
        self.state
    }

    /// The readiness check at `now`: ready in a window; in the cooldown, ready
    /// once `now` reaches its end, which opens a full window.
    pub fn poll_ready(&mut self, now: u64) -> (r: bool)
        requires
            old(self).wf(),
        ensures
            final(self).wf(),
            (final(self).spec_state(), r) == ready_step(old(self).spec_state(), old(self).spec_rate(), now),
            final(self).spec_rate() == old(self).spec_rate(),
            final(self).spec_inner() == old(self).spec_inner(),
    {
        match self.state {
            State::Ready { .. } => true,
            State::Limited { until } => {
                if now >= until {
                    self.state = State::Ready {
                        until: now.saturating_add(self.rate.per()),
                        rem: self.rate.num(),
                    };
                    true
                } else {
                    false
                }
            },
        }
    }

    /// Takes one unit of the quota for a call at `now`, and says whether the
    /// request goes on to the wrapped handler. A call while ready always goes
    /// on; the last unit of a window starts the cooldown. A call in the
    /// cooldown is refused.
    pub fn call(&mut self, now: u64) -> (r: bool)
        requires
            old(self).wf(),
        ensures
            final(self).wf(),
            (final(self).spec_state(), r) == call_step(old(self).spec_state(), old(self).spec_rate(), now),
            final(self).spec_rate() == old(self).spec_rate(),
            final(self).spec_inner() == old(self).spec_inner(),
    {
        match self.state {
            State::Ready { until, rem } => {
                let mut until = until;
                let mut rem = rem;
                if now >= until {
                    until = now.saturating_add(self.rate.per());
                    rem = self.rate.num();
                }
                if rem > 1 {
                    self.state = State::Ready { until, rem: rem - 1 };
                } else {
                    self.state = State::Limited { until };
                }
                true
            },
            State::Limited { .. } => false,
        }
    }
}

} // verus!
