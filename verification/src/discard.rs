//! The [`Discard`] convenience trait

use vstd::prelude::*;

verus! {

/// Consume a value and ignore it, documenting the intent to drop it.
pub trait Discard: Sized {
    fn discard(self);
}

impl<T> Discard for T {
    /// Discard any `T`.
    ///
    /// This is functionally equivalent to `let _ = ...` but is occasionally
    /// more convenient. It never fails: the value is simply dropped.
    #[inline]
    fn discard(self) {
    }
}

} // verus!
