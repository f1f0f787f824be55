use vstd::prelude::*;

verus! {

/// A wrapper that keeps a sensitive value out of accidental reach: the inner
/// value can only be obtained through an explicit `expose` call, so code that
/// merely passes the wrapper along cannot read or leak what it carries.
#[derive(Clone, PartialEq)]
pub struct Secret<T> {
    inner: T,
}

impl<T> Secret<T> {
    /// The wrapped sensitive value.
    pub closed spec fn value(self) -> T {
        self.inner
    }

    /// Wraps a sensitive value.
    pub fn new(inner: T) -> (s: Secret<T>)
        ensures
            s.value() == inner,
    {
        Secret { inner }
    }

    /// Consumes the wrapper and hands the sensitive value back. This is the
    /// only way to reach the inner value.
    pub fn expose(self) -> (v: T)
        ensures
            v == self.value(),
    {
        self.inner
    }
}

} // verus!
