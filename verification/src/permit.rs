//! Permit errors for [`Result`]s

use vstd::prelude::*;

verus! {

/// Selectively turn the failure of a unit-returning operation into success:
/// by a predicate over the failure value, by a boolean flag, or
/// unconditionally. The operations compose by chaining, and a failure
/// surfaces from a chain only if no link permitted it.
pub trait Permit<E>: Sized {
    /// The outcome this value stands for.
    spec fn outcome(self) -> Result<(), E>;

    /// If the outcome is a failure and `f` accepts the failure value, turn it
    /// into success; a success, or a failure that `f` rejects, is returned
    /// unchanged. `f` is never invoked on a success.
    #[must_use]
    fn permit<F: FnOnce(&E) -> bool>(self, f: F) -> (r: Self)
        requires
            self.outcome() matches Err(e) ==> call_requires(f, (&e,)),
        ensures
            self.outcome() is Ok ==> r.outcome() == self.outcome(),
            self.outcome() matches Err(e) ==> ({
                ||| (r.outcome() is Ok && call_ensures(f, (&e,), true))
                ||| (r.outcome() == self.outcome() && call_ensures(f, (&e,), false))
            }),
    ;

    /// If the outcome is a failure and `condition` holds, turn it into
    /// success; a success, or a failure when `condition` is false, is
    /// returned unchanged.
    #[must_use]
    fn permit_if(self, condition: bool) -> (r: Self)
        ensures
            self.outcome() is Ok ==> r.outcome() == self.outcome(),
            self.outcome() is Err && condition ==> r.outcome() is Ok,
            self.outcome() is Err && !condition ==> r.outcome() == self.outcome(),
    ;

    /// Turn any outcome into success, discarding a failure value.
    #[must_use]
    fn permit_all(self) -> (r: Self)
        ensures
            r.outcome() is Ok,
    ;
}

impl<E> Permit<E> for Result<(), E> {
    open spec fn outcome(self) -> Result<(), E> {
        self
    }

    /// Lazy error handling: permit a specific error for `Result<(), E>`.
    ///
    /// Note that this works only for a unit success payload, since a
    /// permitted failure has no payload to supply. The calls chain.
    #[inline]
    fn permit<F: FnOnce(&E) -> bool>(self, f: F) -> (r: Self)
        ensures
            self is Ok ==> r == self,
            self matches Err(e) ==> ({
                ||| (r == Ok::<(), E>(()) && call_ensures(f, (&e,), true))
                ||| (r == self && call_ensures(f, (&e,), false))
            }),
    {
        match self {
            Ok(u) => Ok(u),
            Err(e) => {
                if f(&e) {
                    Ok(())
                } else {
                    Err(e)
                }
            },
        }
    }

    #[inline]
    fn permit_if(self, condition: bool) -> (r: Self)
        ensures
            self is Ok ==> r == self,
            self is Err && condition ==> r == Ok::<(), E>(()),
            self is Err && !condition ==> r == self,
    {
        match self {
            Ok(u) => Ok(u),
            Err(e) => {
                if condition {
                    Ok(())
                } else {
                    Err(e)
                }
            },
        }
    }

    #[inline]
    fn permit_all(self) -> (r: Self)
        ensures
            r == Ok::<(), E>(()),
    {
        Ok(())
    }
}

} // verus!
