//! The [`OptionInspectNone`] convenience trait: the earlier name of
//! [`InspectNone`](crate::inspect_none::InspectNone), kept so that callers
//! written against it keep compiling; the behaviour is identical.

use vstd::prelude::*;

verus! {

/// The earlier name of [`InspectNone`], kept so that callers written against
/// it keep compiling; the behaviour is identical.
pub trait OptionInspectNone<T>: Sized {
    /// The optional value this receiver stands for.
    spec fn optional(self) -> Option<T>;

    /// Calls `f` if the optional is absent, exactly once and for its side
    /// effect only; a present optional passes through without invoking `f`.
    /// Returns the original optional in either case.
    #[must_use]
    fn inspect_none<F: FnOnce()>(self, f: F) -> (r: Self)
        requires
            self.optional() is None ==> call_requires(f, ()),
        ensures
            r == self,
            self.optional() is None ==> call_ensures(f, (), ()),
    ;
}

impl<T> OptionInspectNone<T> for Option<T> {
    open spec fn optional(self) -> Option<T> {
        self
    }

    /// Calls a function if [`None`].
    ///
    /// Returns the original option.
    #[inline]
    fn inspect_none<F: FnOnce()>(self, f: F) -> (r: Self)
        ensures
            r == self,
            self is None ==> call_ensures(f, (), ()),
    {
        if self.is_none() {
            f();
        }
        self
    }
}

impl<T> OptionInspectNone<T> for &Option<T> {
    open spec fn optional(self) -> Option<T> {
        *self
    }

    /// Calls a function if [`None`].
    ///
    /// Returns the original option, which stays borrowed rather than
    /// consumed, so callers can inspect without giving the value up.
    #[inline]
    fn inspect_none<F: FnOnce()>(self, f: F) -> (r: Self)
        ensures
            r == self,
            *self is None ==> call_ensures(f, (), ()),
    {
        if self.is_none() {
            f();
        }
        self
    }
}

} // verus!
