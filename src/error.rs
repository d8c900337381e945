use vstd::prelude::*;

verus! {

/// What polling a pending operation reports.
#[derive(Debug, PartialEq, Eq)]
pub enum Status<V, E> {
    /// The operation completed with a value.
    Ready(V),
    /// The operation is still in flight; the caller is woken on progress.
    NotReady,
    /// The operation completed with an error.
    Failed(E),
}

/// The failures a decorator adds to those of the handler it wraps.
#[derive(Debug, PartialEq, Eq)]
pub enum Error<E> {
    /// The admission limit had no free slot.
    NoCapacity,
    /// The rate limiter was in its cooldown.
    RateLimited,
    /// The deadline passed before the operation completed.
    Elapsed,
    /// The wrapped handler failed; its error is passed on unchanged.
    Inner(E),
}

impl<V, E> Status<V, E> {
    /// Passes an error of the wrapped handler on as `Error::Inner`.
    pub fn lift(self) -> (r: Status<V, Error<E>>)
        ensures
            match self {
                Status::Ready(v) => r == Status::<V, Error<E>>::Ready(v),
                Status::NotReady => r is NotReady,
                Status::Failed(e) => r == Status::<V, Error<E>>::Failed(Error::Inner(e)),
            },
    {
        match self {
            Status::Ready(v) => Status::Ready(v),
            Status::NotReady => Status::NotReady,
            Status::Failed(e) => Status::Failed(Error::Inner(e)),
        }
    }
}

} // verus!
