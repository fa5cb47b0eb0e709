//! A wrapper that pairs a byte stream with the byte accounting of
//! `Metrics`. The surrounding program implements its asynchronous read and
//! write traits on top of this pair, reporting each transfer through
//! `Metrics::bytes_in` and `Metrics::bytes_out`.
use vstd::prelude::*;

verus! {

/// Wrapper around a stream whose reads and writes are to be counted.
pub struct CountingStream<S> {
    inner: S,
}

impl<S> CountingStream<S> {
    /// The wrapped stream.
    pub closed spec fn inner_spec(&self) -> S {
        self.inner
    }

    /// Wrap a stream.
    pub fn new(inner: S) -> (r: CountingStream<S>)
        ensures
            r.inner_spec() == inner,
    {
        CountingStream { inner }
    }

    /// Release the wrapped stream.
    pub fn into_inner(self) -> (r: S)
        ensures
            r == self.inner_spec(),
    {
        self.inner
    }

    /// Borrow the wrapped stream mutably, as the asynchronous read and
    /// write impls of the surrounding program need it.
    pub fn get_mut(&mut self) -> (r: &mut S)
        ensures
            *r == old(self).inner_spec(),
            final(self).inner_spec() == *final(r),
    {
        &mut self.inner
    }
}

} // verus!
