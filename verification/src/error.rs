//! The failure carrier: an error value paired with its propagation trace.

use vstd::prelude::*;

use crate::trace::CodeLocation;
use crate::trace::CodeLocationStack;
use crate::trace::Traced;

verus! {

/// A wrapper around a generic error value that carries the ordered trace of
/// the code locations through which the error has been forwarded.
///
/// The trace store type `S` can be swapped for any type with the [`Traced`]
/// capability; [`CodeLocationStack`] is the default. A `TracedError` that is
/// observable outside its constructor always holds at least one location:
/// [`TracedError::new`] records the construction site as the first entry.
#[derive(Debug, PartialEq, Eq, Hash)]
pub struct TracedError<E, S = CodeLocationStack> {
    pub error: E,
    pub stack: S,
}

impl<E, S> TracedError<E, S> {
    /// Returns the wrapped error.
    pub fn error(&self) -> (r: &E)
        ensures
            r == self.error,
    {
        &self.error
    }

    /// Returns the traced stack.
    pub fn stack(&self) -> (r: &S)
        ensures
            r == self.stack,
    {
        &self.stack
    }

    /// Converts the wrapped error from type `E` to type `F`.
    ///
    /// The trace is moved across untouched: its length and its entries are
    /// identical before and after the conversion.
    pub fn convert_inner<F: From<E>>(self) -> (r: TracedError<F, S>)
        ensures
            r.stack == self.stack,
            call_ensures(<F as From<E>>::from, (self.error,), r.error),
    {
        TracedError { error: From::from(self.error), stack: self.stack }
    }
}

impl<E, S: Traced> TracedError<E, S> {
    /// Constructs a new `TracedError` from the given error.
    ///
    /// The trace starts out holding exactly the given location, the site of
    /// the construction.
    pub fn new(error: E, loc: CodeLocation) -> (r: Self)
        ensures
            r.error == error,
            r.stack.locations() == seq![loc],
    {
        let mut stack = S::empty();
        stack.trace(loc);
        proof {
            assert(stack.locations() =~= seq![loc]);
        }
        TracedError { error, stack }
    }

    /// Appends the given forwarding site to the trace.
    ///
    /// The wrapped error is left unchanged; the trace grows by exactly the
    /// one location.
    pub fn push_caller(&mut self, loc: CodeLocation)
        ensures
            final(self).error == old(self).error,
            final(self).stack.locations() == old(self).stack.locations().push(loc),
    {
        self.stack.trace(loc);
    }
}

} // verus!
