//! Admission control: a bound on the number of requests in flight.
//!
//! The count of admitted requests lives in one shared block, updated by atomic
//! read-modify-write only. A limiter takes a slot in its readiness check and hands
//! it to the ticket of the next call; the ticket gives it back exactly once,
//! whether the request completes, fails or is abandoned.
use vstd::prelude::*;
use crate::error::{Error, Status};
use std::sync::Arc;
use std::sync::atomic::AtomicUsize;
use std::sync::atomic::Ordering;

verus! {

/// One atomic update of the count of admitted requests against the bound
/// `max`: taking a slot succeeds below the bound, giving one back succeeds
/// above zero. `None` leaves the count as it is.
pub open spec fn counter_step(curr: usize, max: usize, reserving: bool) -> Option<usize> {
    if reserving {
        if curr < max {
            Some((curr + 1) as usize)
        } else {
            None
        }
    } else {
        if curr > 0 {
            Some((curr - 1) as usize)
        } else {
            None
        }
    }
}

/// The count after a run of updates from `curr`, each taking (`true`) or
/// giving back (`false`) one slot.
pub open spec fn run_steps(curr: usize, max: usize, steps: Seq<bool>) -> usize
    decreases steps.len(),
{
    if steps.len() == 0 {
        curr
    } else {
        let next = match counter_step(curr, max, steps[0]) {
            Some(n) => n,
            None => curr,
        };
        run_steps(next, max, steps.drop_first())
    }
}

/// In the model of the count as a run of atomic updates, whatever their order:
/// the count never exceeds the bound, giving a slot back frees exactly one,
/// and the slot freed admits the next request.
pub proof fn lemma_admissions_bounded(curr: usize, max: usize, steps: Seq<bool>)
    requires
        curr <= max,
    ensures
        run_steps(curr, max, steps) <= max,
        curr > 0 ==> counter_step(curr, max, false) == Some((curr - 1) as usize),
        curr > 0 ==> counter_step((curr - 1) as usize, max, true) == Some(curr),
        counter_step(curr, max, true) is Some <==> curr < max,
    decreases steps.len(),
{
    if steps.len() > 0 {
        let next = match counter_step(curr, max, steps[0]) {
            Some(n) => n,
            None => curr,
        };
        lemma_admissions_bounded(next, max, steps.drop_first());
    }
}

fn next_count(curr: usize, max: usize, reserving: bool) -> (r: Option<usize>)
    ensures
        r == counter_step(curr, max, reserving),
{
    if reserving {
        if curr < max {
            Some(curr + 1)
        } else {
            None
        }
    } else {
        if curr > 0 {
            Some(curr - 1)
        } else {
            None
        }
    }
}

/// Relies on `AtomicUsize::fetch_update`: it applies the update to the value
/// it read, stores the new value only if no other write came between, and
/// retries otherwise; it returns `Ok(previous)` where the update gave a new
/// value and `Err(previous)` where it gave none.
#[verifier::external_body]
fn update_count(count: &AtomicUsize, max: usize, reserving: bool) -> (r: Result<usize, usize>)
    ensures
        match r {
            Ok(prev) => counter_step(prev, max, reserving) is Some,
            Err(prev) => counter_step(prev, max, reserving) is None,
        },
{
    count.fetch_update(Ordering::SeqCst, Ordering::SeqCst, |c| next_count(c, max, reserving))
}

/// What giving a slot back did.
#[derive(Clone, Copy, Debug, PartialEq, Eq, Structural)]
pub enum Release {
    /// A slot was freed; `prev` slots were taken before. `wake` is set where
    /// the count came down from the bound, so that the waiter must be woken.
    Freed { prev: usize, wake: bool },
    /// No slot was taken.
    Idle,
}

/// What a release reports, given the bound `max`: a freed slot says how
/// many were taken before, and asks for a wake-up exactly where that was the
/// bound.
pub open spec fn release_reported(r: Release, max: usize) -> bool {
    match r {
        Release::Freed { prev, wake } => prev > 0 && wake == (prev == max),
        Release::Idle => true,
    }
}

/// What a release reports, given what the atomic update found: `Ok` with
/// the count before a slot was freed, or `Err` where no slot was taken.
pub fn release_outcome(found: Result<usize, usize>, max: usize) -> (r: Release)
    ensures
        r == (match found {
            Ok(prev) => Release::Freed { prev, wake: prev == max },
            Err(_) => Release::Idle,
        }),
{
    match found {
        Ok(prev) => Release::Freed { prev, wake: prev == max },
        Err(_) => Release::Idle,
    }
}

/// The block that a limiter, its clones and its tickets share.
pub struct Shared {
    max: usize,
    curr: AtomicUsize,
}

impl Shared {
    /// The bound on requests in flight.
    pub closed spec fn spec_max(&self) -> usize {
        self.max
    }

    /// A block with bound `max` and no slot taken. A bound of zero admits
    /// nothing.
    pub fn new(max: usize) -> (r: Shared)
        ensures
            r.spec_max() == max,
    {
        Shared { max, curr: AtomicUsize::new(0) }
    }

    /// The bound on requests in flight.
    pub fn max(&self) -> (r: usize)
        ensures
            r == self.spec_max(),
    {
        self.max
    }

    /// Takes a slot if one is free: `Ok` with the count it found below the
    /// bound, or `Err` with the count it found at the bound.
    pub fn reserve(&self) -> (r: Result<usize, usize>)
        ensures
            match r {
                Ok(prev) => prev < self.spec_max(),
                Err(seen) => seen >= self.spec_max(),
            },
    {
        update_count(&self.curr, self.max, true)
    }

    /// Gives a slot back, and says whether the waiter must be woken. The
    /// count is updated before this returns, so before any wake-up.
    pub fn release(&self) -> (r: Release)
        ensures
            release_reported(r, self.spec_max()),
    {
        release_outcome(update_count(&self.curr, self.max, false), self.max)
    }
}

/// What a readiness check of a limiter found.
#[derive(Clone, Copy, Debug, PartialEq, Eq, Structural)]
pub enum Readiness {
    /// The limiter already held a slot; the counter was not touched.
    Held,
    /// The limiter took a slot now.
    Reserved,
    /// No slot was free; the caller waits for a release.
    Full,
}

/// The slots that a readiness check took.
pub open spec fn slots_taken(r: Readiness) -> nat {
    if r == Readiness::Reserved {
        1
    } else {
        0
    }
}

/// A readiness check that found the limiter holding a slot (`before`) or not,
/// reported `r`, and left it holding one (`after`) or not.
pub open spec fn ready_transition(before: bool, r: Readiness, after: bool) -> bool {
    &&& before ==> r == Readiness::Held
    &&& !before ==> r != Readiness::Held
    &&& after == (r != Readiness::Full)
}

/// The slots taken by a run of readiness checks.
pub open spec fn total_taken(rs: Seq<Readiness>) -> nat
    decreases rs.len(),
{
    if rs.len() == 0 {
        0
    } else {
        slots_taken(rs[0]) + total_taken(rs.drop_first())
    }
}

/// Readiness checks repeated any number of times with no call between them
/// take at most one slot in all, and none where the limiter held one before
/// the first. `held[i]` says whether the limiter held a slot before check `i`.
pub proof fn lemma_no_double_reservation(held: Seq<bool>, rs: Seq<Readiness>)
    requires
        held.len() == rs.len() + 1,
        forall|i: int|
            0 <= i < rs.len() ==> #[trigger] ready_transition(held[i], rs[i], held[i + 1]),
    ensures
        total_taken(rs) <= 1,
        held[0] ==> total_taken(rs) == 0,
    decreases rs.len(),
{
    if rs.len() > 0 {
        let h2 = held.drop_first();
        let r2 = rs.drop_first();
        assert forall|i: int| 0 <= i < r2.len() implies #[trigger] ready_transition(
            h2[i],
            r2[i],
            h2[i + 1],
        ) by {
            let k = i + 1;
            assert(ready_transition(held[k], rs[k], held[k + 1]));
            assert(h2[i] == held[k] && r2[i] == rs[k] && h2[i + 1] == held[k + 1]);
        }
        lemma_no_double_reservation(h2, r2);
        assert(ready_transition(held[0], rs[0], held[1]));
    }
}

/// The claim of one call on a slot. Where the call was admitted, the ticket
/// holds the slot until it is resolved or abandoned, and then gives it back:
/// once, and only once.
pub struct Ticket {
    shared: Arc<Shared>,
    admitted: bool,
    held: bool,
    released: Ghost<nat>,
}

impl Ticket {
    /// The call was admitted.
    pub closed spec fn spec_admitted(&self) -> bool {
        self.admitted
    }

    /// The ticket still holds its slot.
    pub closed spec fn spec_held(&self) -> bool {
        self.held
    }

    /// The bound of the limiter that issued the ticket.
    pub closed spec fn spec_max(&self) -> usize {
        self.shared.spec_max()
    }

    /// How many times this ticket gave a slot back.
    pub closed spec fn spec_released(&self) -> nat {
        self.released@
    }

    /// A slot is held or was given back, once, exactly where the call was
    /// admitted.
    pub open spec fn wf(&self) -> bool {
        &&& self.spec_admitted() ==> self.spec_max() > 0
        &&& self.spec_released() + (if self.spec_held() { 1nat } else { 0nat }) == (if self.spec_admitted() {
            1nat
        } else {
            0nat
        })
    }

    /// The call was admitted.
    pub fn admitted(&self) -> (r: bool)
        ensures
            r == self.spec_admitted(),
    {
        self.admitted
    }

    /// The ticket still holds its slot.
    pub fn held(&self) -> (r: bool)
        ensures
            r == self.spec_held(),
    {
        self.held
    }

    fn give_back(&mut self) -> (r: Release)
        requires
            old(self).wf(),
            old(self).spec_held(),
        ensures
            final(self).wf(),
            !final(self).spec_held(),
            final(self).spec_admitted() == old(self).spec_admitted(),
            final(self).spec_released() == old(self).spec_released() + 1,
            final(self).spec_max() == old(self).spec_max(),
            release_reported(r, old(self).spec_max()),
    {
        self.held = false;
        self.released = Ghost(self.released@ + 1);
        self.shared.release()
    }

    /// Resolves the call from what its inner operation reported. Where the
    /// call was not admitted, or was already resolved, the result is
    /// `NoCapacity` and `inner` is not looked at. Otherwise a completion, with
    /// a value or an error, gives the slot back; an operation still in flight
    /// keeps it.
    pub fn resolve<V, E>(&mut self, inner: Status<V, E>) -> (r: (Status<V, Error<E>>, Release))
        requires
            old(self).wf(),
        ensures
            final(self).wf(),
            final(self).spec_admitted() == old(self).spec_admitted(),
            !old(self).spec_held() ==> r.0 == Status::<V, Error<E>>::Failed(Error::NoCapacity)
                && r.1 == Release::Idle && final(self).spec_released() == old(self).spec_released()
                && !final(self).spec_held(),
            old(self).spec_held() ==> match inner {
                Status::Ready(v) => r.0 == Status::<V, Error<E>>::Ready(v) && !final(self).spec_held(),
                Status::Failed(e) => r.0 == Status::<V, Error<E>>::Failed(Error::Inner(e))
                    && !final(self).spec_held(),
                Status::NotReady => r.0 is NotReady && final(self).spec_held() && r.1 == Release::Idle,
            },
            final(self).spec_released() <= 1,
            final(self).spec_max() == old(self).spec_max(),
            release_reported(r.1, old(self).spec_max()),
    {
        if !self.held {
            return (Status::Failed(Error::NoCapacity), Release::Idle);
        }
        match inner {
            Status::NotReady => (Status::NotReady, Release::Idle),
            Status::Ready(v) => {
                let rel = self.give_back();
                (Status::Ready(v), rel)
            },
            Status::Failed(e) => {
                let rel = self.give_back();
                (Status::Failed(Error::Inner(e)), rel)
            },
        }
    }

    /// Abandons the call: a slot still held is given back.
    pub fn abandon(&mut self) -> (r: Release)
        requires
            old(self).wf(),
        ensures
            final(self).wf(),
            !final(self).spec_held(),
            final(self).spec_admitted() == old(self).spec_admitted(),
            final(self).spec_released() == (if old(self).spec_admitted() { 1nat } else { 0nat }),
            !old(self).spec_held() ==> r == Release::Idle,
            final(self).spec_max() == old(self).spec_max(),
            release_reported(r, old(self).spec_max()),
    {
        if self.held {
            self.give_back()
        } else {
            Release::Idle
        }
    }
}

/// Once a ticket is no longer held, it has given back exactly the slots that
/// its call took: one where it was admitted, none where it was not.
pub proof fn lemma_released_exactly_once(t: Ticket)
    requires
        t.wf(),
        !t.spec_held(),
    ensures
        t.spec_released() == (if t.spec_admitted() { 1nat } else { 0nat }),
{
}

/// A handler wrapped by an admission limiter.
pub struct InFlightLimit<T> {
    inner: T,
    shared: Arc<Shared>,
    reserved: bool,
    given_back: Ghost<nat>,
}

impl<T> InFlightLimit<T> {
    /// A slot is held only where the bound allows one.
    pub open spec fn wf(&self) -> bool {
        self.spec_reserved() ==> self.spec_max() > 0
    }

    /// How many unused readiness slots this limiter gave back.
    pub closed spec fn spec_given_back(&self) -> nat {
        self.given_back@
    }

    /// The wrapped handler.
    pub closed spec fn spec_inner(&self) -> T {
        self.inner
    }

    /// The bound on requests in flight.
    pub closed spec fn spec_max(&self) -> usize {
        self.shared.spec_max()
    }

    /// The limiter holds a slot taken by a readiness check and not yet used by a
    /// call.
    pub closed spec fn spec_reserved(&self) -> bool {
        self.reserved
    }

    /// Wraps `inner` with a bound of `max` requests in flight.
    pub fn new(inner: T, max: usize) -> (r: Self)
        ensures
            r.spec_inner() == inner,
            r.spec_max() == max,
            r.wf(),
            !r.spec_reserved(),
            r.spec_given_back() == 0,
    {
        InFlightLimit {
            inner,
            shared: Arc::new(Shared::new(max)),
            reserved: false,
            given_back: Ghost(0),
        }
    }

    /// The wrapped handler.
    pub fn get_ref(&self) -> (r: &T)
        ensures
            *r == self.spec_inner(),
    {
        &self.inner
    }

    /// The wrapped handler, to be driven in place.
    pub fn get_mut(&mut self) -> (r: &mut T)
        requires
            old(self).wf(),
        ensures
            final(self).wf(),
            *r == old(self).spec_inner(),
            final(self).spec_inner() == *final(r),
            final(self).spec_max() == old(self).spec_max(),
            final(self).spec_reserved() == old(self).spec_reserved(),
            final(self).spec_given_back() == old(self).spec_given_back(),
    {
        &mut self.inner
    }

    /// Consumes the limiter, returning the wrapped handler. A slot that the limiter
    /// held is given back first.
    pub fn into_inner(self) -> (r: T)
        requires
            self.wf(),
        ensures
            r == self.spec_inner(),
    {
        let mut s = self;
        s.release_reservation();
        s.inner
    }

    /// The bound on requests in flight.
    pub fn max(&self) -> (r: usize)
        ensures
            r == self.spec_max(),
    {
        self.shared.max()
    }

    /// The limiter holds a slot not yet used by a call.
    pub fn reserved(&self) -> (r: bool)
        ensures
            r == self.spec_reserved(),
    {
        self.reserved
    }

    /// The block that the limiter shares with its clones and tickets.
    pub fn shared(&self) -> (r: &Arc<Shared>)
        ensures
            (**r).spec_max() == self.spec_max(),
    {
        &self.shared
    }

    /// A second limiter around `inner` that shares this limiter's bound and count,
    /// holding no slot of its own.
    pub fn fork<U>(&self, inner: U) -> (r: InFlightLimit<U>)
        ensures
            r.spec_inner() == inner,
            r.spec_max() == self.spec_max(),
            r.wf(),
            !r.spec_reserved(),
            r.spec_given_back() == 0,
    {
        InFlightLimit { inner, shared: self.shared.clone(), reserved: false, given_back: Ghost(0) }
    }

    /// The readiness check. A limiter that holds a slot keeps it and touches no
    /// count; otherwise it tries to take one. Where it holds a slot after the
    /// check, the wrapped handler's readiness decides.
    pub fn poll_ready(&mut self) -> (r: Readiness)
        requires
            old(self).wf(),
        ensures
            final(self).wf(),
            ready_transition(old(self).spec_reserved(), r, final(self).spec_reserved()),
            r == Readiness::Reserved ==> old(self).spec_max() > 0,
            final(self).spec_reserved() ==> final(self).spec_max() > 0,
            final(self).spec_given_back() == old(self).spec_given_back(),
            final(self).spec_max() == old(self).spec_max(),
            final(self).spec_inner() == old(self).spec_inner(),
    {
        if self.reserved {
            return Readiness::Held;
        }
        match self.shared.reserve() {
            Ok(_) => {
                self.reserved = true;
                Readiness::Reserved
            },
            Err(_) => Readiness::Full,
        }
    }

    /// Admits a call: with the slot of a readiness check where the limiter holds
    /// one, else with a slot taken now if one is free. The ticket is admitted
    /// exactly then; a ticket that is not must be resolved without calling the
    /// wrapped handler.
    pub fn call(&mut self) -> (r: Ticket)
        requires
            old(self).wf(),
        ensures
            final(self).wf(),
            r.wf(),
            r.spec_held() == r.spec_admitted(),
            r.spec_released() == 0,
            r.spec_max() == old(self).spec_max(),
            r.spec_admitted() ==> old(self).spec_max() > 0,
            old(self).spec_reserved() ==> r.spec_admitted(),
            final(self).spec_given_back() == old(self).spec_given_back(),
            !final(self).spec_reserved(),
            final(self).spec_max() == old(self).spec_max(),
            final(self).spec_inner() == old(self).spec_inner(),
    {
        let admitted = if self.reserved {
            self.reserved = false;
            true
        } else {
            match self.shared.reserve() {
                Ok(_) => true,
                Err(_) => false,
            }
        };
        Ticket { shared: self.shared.clone(), admitted, held: admitted, released: Ghost(0) }
    }

    /// Gives back the slot of a readiness check that no call used, as when
    /// the limiter is dropped.
    pub fn release_reservation(&mut self) -> (r: Release)
        requires
            old(self).wf(),
        ensures
            final(self).wf(),
            !final(self).spec_reserved(),
            !old(self).spec_reserved() ==> r == Release::Idle,
            release_reported(r, old(self).spec_max()),
            final(self).spec_given_back() == old(self).spec_given_back() + (if old(
                self,
            ).spec_reserved() {
                1nat
            } else {
                0nat
            }),
            final(self).spec_max() == old(self).spec_max(),
            final(self).spec_inner() == old(self).spec_inner(),
    {
        if self.reserved {
            self.reserved = false;
            self.given_back = Ghost(self.given_back@ + 1);
            self.shared.release()
        } else {
            Release::Idle
        }
    }
}

} // verus!
