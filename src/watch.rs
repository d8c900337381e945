//! Rebinding: a handler rebuilt from each new value of a watched configuration.
//!
//! The subscription is polled by the caller, who reports what it found: a new
//! value, nothing new, or that the publisher is gone for good. A closed
//! subscription is no failure: the handler last built stays in place.
use vstd::prelude::*;

verus! {

/// Builds a handler from a borrowed configuration value.
pub trait Bind<T> {
    /// The handler built.
    type Service;

    /// The handler that this binder builds from `t`.
    spec fn spec_bind(&self, t: T) -> Self::Service;

    /// Builds a handler from `t`.
    fn bind(&mut self, t: &T) -> (r: Self::Service)
        ensures
            r == old(self).spec_bind(*t),
    ;
}

/// What a poll of the subscription found.
pub enum Update<T> {
    /// A value newer than the last one observed.
    Changed(T),
    /// Nothing new since the last poll.
    Unchanged,
    /// The publisher is gone; no value will come again.
    Closed,
}

/// The update seen through a borrow.
pub open spec fn update_of<T>(u: Update<&T>) -> Update<T> {
    match u {
        Update::Changed(t) => Update::Changed(*t),
        Update::Unchanged => Update::Unchanged,
        Update::Closed => Update::Closed,
    }
}

/// The value bound and whether the subscription is closed, after `u` was
/// reported to a rebinder that had bound `bound` and was closed or not.
pub open spec fn rebind_step<T>(bound: T, closed: bool, u: Update<T>) -> (T, bool) {
    if closed {
        (bound, true)
    } else {
        match u {
            Update::Changed(t) => (t, false),
            Update::Unchanged => (bound, false),
            Update::Closed => (bound, true),
        }
    }
}

/// The value bound and whether the subscription is closed after a run of
/// updates.
pub open spec fn run_updates<T>(bound: T, closed: bool, us: Seq<Update<T>>) -> (T, bool)
    decreases us.len(),
{
    if us.len() == 0 {
        (bound, closed)
    } else {
        let (b, c) = rebind_step(bound, closed, us[0]);
        run_updates(b, c, us.drop_first())
    }
}

/// Once the publisher is gone, the value bound stays as it is whatever the
/// subscription reports after, and the subscription stays closed.
pub proof fn lemma_pinned_after_close<T>(bound: T, us: Seq<Update<T>>)
    ensures
        run_updates(bound, true, us) == (bound, true),
    decreases us.len(),
{
    if us.len() > 0 {
        lemma_pinned_after_close(bound, us.drop_first());
    }
}

/// While the publisher lives, a value reported as changed is the one bound
/// next, whatever was bound before.
pub proof fn lemma_latest_bound<T>(bound: T, t: T, us: Seq<Update<T>>)
    requires
        forall|i: int| 0 <= i < us.len() ==> us[i] is Unchanged,
    ensures
        run_updates(bound, false, seq![Update::Changed(t)] + us) == (t, false),
{
    let s = seq![Update::Changed(t)] + us;
    assert(s.drop_first() =~= us);
    lemma_unchanged_keeps(t, us);
}

/// Updates that bring nothing new keep the value bound.
proof fn lemma_unchanged_keeps<T>(bound: T, us: Seq<Update<T>>)
    requires
        forall|i: int| 0 <= i < us.len() ==> us[i] is Unchanged,
    ensures
        run_updates(bound, false, us) == (bound, false),
    decreases us.len(),
{
    if us.len() > 0 {
        assert(us[0] is Unchanged);
        assert forall|i: int| 0 <= i < us.drop_first().len() implies us.drop_first()[i] is Unchanged by {
            assert(us.drop_first()[i] == us[i + 1]);
        }
        lemma_unchanged_keeps(bound, us.drop_first());
    }
}

/// A handler that is rebuilt each time the watched configuration changes.
pub struct WatchService<T, B: Bind<T>> {
    bind: B,
    inner: B::Service,
    closed: bool,
    bound: Ghost<T>,
}

impl<T, B: Bind<T>> WatchService<T, B> {
    /// The configuration value that the installed handler was built from.
    pub closed spec fn spec_bound(&self) -> T {
        self.bound@
    }

    /// The publisher is known to be gone.
    pub closed spec fn spec_closed(&self) -> bool {
        self.closed
    }

    /// The installed handler.
    pub closed spec fn spec_inner(&self) -> B::Service {
        self.inner
    }

    /// The binder that builds each handler.
    pub closed spec fn spec_binder(&self) -> B {
        self.bind
    }

    /// Builds the first handler from the value the subscription holds now.
    pub fn new(initial: &T, bind: B) -> (r: Self)
        ensures
            r.spec_bound() == *initial,
            !r.spec_closed(),
            r.spec_inner() == bind.spec_bind(*initial),
    {
        let mut bind = bind;
        let inner = bind.bind(initial);
        WatchService { bind, inner, closed: false, bound: Ghost(*initial) }
    }

    /// The installed handler.
    pub fn get_ref(&self) -> (r: &B::Service)
        ensures
            *r == self.spec_inner(),
    {
        &self.inner
    }

    /// The installed handler, to be driven in place. Calls go to it alone;
    /// they never rebind.
    pub fn get_mut(&mut self) -> (r: &mut B::Service)
        ensures
            *r == old(self).spec_inner(),
            final(self).spec_inner() == *final(r),
            final(self).spec_bound() == old(self).spec_bound(),
            final(self).spec_closed() == old(self).spec_closed(),
            final(self).spec_binder() == old(self).spec_binder(),
    {
        &mut self.inner
    }

    /// The publisher is known to be gone.
    pub fn is_closed(&self) -> (r: bool)
        ensures
            r == self.spec_closed(),
    {
        self.closed
    }

    /// Takes in what a poll of the subscription found, and says whether the
    /// handler was rebuilt. A new value rebuilds it from that value, replacing
    /// the one installed; nothing new keeps it; a closed subscription keeps it
    /// for good. No outcome is an error.
    pub fn poll_rebind(&mut self, update: Update<&T>) -> (r: bool)
        ensures
            (final(self).spec_bound(), final(self).spec_closed()) == rebind_step(
                old(self).spec_bound(),
                old(self).spec_closed(),
                update_of(update),
            ),
            r == (!old(self).spec_closed() && update is Changed),
            r ==> final(self).spec_inner() == old(self).spec_binder().spec_bind(final(self).spec_bound()),
            !r ==> final(self).spec_inner() == old(self).spec_inner(),
            !r ==> final(self).spec_binder() == old(self).spec_binder(),
    {
        if self.closed {
            return false;
        }
        match update {
            Update::Changed(t) => {
                self.inner = self.bind.bind(t);
                self.bound = Ghost(*t);
                true
            },
            Update::Unchanged => false,
            Update::Closed => {
                self.closed = true;
                false
            },
        }
    }
}

} // verus!
