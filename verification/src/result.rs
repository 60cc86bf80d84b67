//! The traced result type and its propagation protocol.

use vstd::prelude::*;

use crate::error::TracedError;
use crate::trace::CodeLocation;
use crate::trace::CodeLocationStack;
use crate::trace::Traced;
use crate::trace::lemma_recording_is_append_only;
use crate::trace::recorded_after;

verus! {

/// A replacement for `std::result::Result<T, E>` whose failure side carries
/// a trace of the locations through which the failure was forwarded.
///
/// A failure holds a [`TracedError<E, S>`]: the error value of type `E`
/// together with a trace store of type `S`. Each invocation of the
/// propagation operation [`Result::propagate`] appends exactly one location
/// to that trace. A result that is returned directly, without the
/// propagation operation, keeps its trace unchanged: nothing is recorded for
/// a frame that merely passes the value along.
#[must_use]
#[derive(Debug, PartialEq, Eq, Hash)]
pub enum Result<T, E, S = CodeLocationStack> {
    /// Contains the success value.
    Success(T),
    /// Contains the error value wrapped in a [`TracedError`].
    Failure(TracedError<E, S>),
}

impl<T, E, S: Traced> Result<T, E, S> {
    /// Constructs a new error result from the provided error value.
    ///
    /// The error value is converted into the error type `E`, and the trace
    /// starts out holding exactly the given location, the construction site.
    pub fn new_err<D>(error_value: D, loc: CodeLocation) -> (r: Self) where E: From<D>
        ensures
            r is Failure,
            r->Failure_0.stack.locations() == seq![loc],
            call_ensures(<E as From<D>>::from, (error_value,), r->Failure_0.error),
    {
        Result::Failure(TracedError::new(From::from(error_value), loc))
    }

    /// The propagation operation, native entry: forwards this result one
    /// call frame upward.
    ///
    /// On a success the value is passed through and no trace is touched. On
    /// a failure the given location — the forwarding site — is appended to
    /// the existing trace, and then the error value is converted to the
    /// error type demanded by the enclosing context. The trace survives the
    /// conversion untouched but for the one appended entry.
    pub fn propagate<F>(self, loc: CodeLocation) -> (r: Result<T, F, S>) where F: From<E>
        ensures
            self is Success ==> r is Success && r->Success_0 == self->Success_0,
            self is Failure ==> r is Failure
                && r->Failure_0.stack.locations() == self->Failure_0.stack.locations().push(loc)
                && call_ensures(<F as From<E>>::from, (self->Failure_0.error,), r->Failure_0.error),
    {
        match self {
            Result::Success(v) => Result::Success(v),
            Result::Failure(mut e) => {
                e.push_caller(loc);
                Result::Failure(e.convert_inner())
            },
        }
    }

    /// The propagation operation, foreign entry: coerces a plain, trace-less
    /// result into a traced one.
    ///
    /// There is no existing trace to extend, so on a failure a brand-new
    /// trace is started holding exactly the given location, the coercion
    /// site — never an entry appended onto any prior state.
    pub fn from_std<D>(result: std::result::Result<T, D>, loc: CodeLocation) -> (r: Self) where
        E: From<D>,

        ensures
            result is Ok ==> r is Success && r->Success_0 == result->Ok_0,
            result is Err ==> r is Failure
                && r->Failure_0.stack.locations() == seq![loc]
                && call_ensures(<E as From<D>>::from, (result->Err_0,), r->Failure_0.error),
    {
        match result {
            std::result::Result::Ok(v) => Result::Success(v),
            std::result::Result::Err(e) => Result::Failure(TracedError::new(From::from(e), loc)),
        }
    }

    /// Converts from `Result<T, E, S>` to `std::result::Result<T, E>`,
    /// consuming `self` and discarding the trace.
    pub fn to_std(self) -> (r: std::result::Result<T, E>)
        ensures
            self is Success ==> r is Ok && r->Ok_0 == self->Success_0,
            self is Failure ==> r is Err && r->Err_0 == self->Failure_0.error,
    {
        match self {
            Result::Success(t) => std::result::Result::Ok(t),
            Result::Failure(e) => std::result::Result::Err(e.error),
        }
    }

    /// Views this result as a plain `std::result::Result` of references,
    /// leaving `self` in place.
    pub fn as_std_ref(&self) -> (r: std::result::Result<&T, &E>)
        ensures
            self is Success ==> r is Ok && r->Ok_0 == self->Success_0,
            self is Failure ==> r is Err && r->Err_0 == self->Failure_0.error,
    {
        match self {
            Result::Success(ref t) => std::result::Result::Ok(t),
            Result::Failure(ref e) => std::result::Result::Err(&e.error),
        }
    }

    /// Converts from `Result<T, E, S>` to `Option<TracedError<E, S>>`,
    /// consuming `self` and discarding the success value, if any.
    ///
    /// The error keeps its full trace.
    pub fn err_stack(self) -> (r: Option<TracedError<E, S>>)
        ensures
            self is Success ==> r is None,
            self is Failure ==> r == Some(self->Failure_0),
    {
        match self {
            Result::Success(_) => None,
            Result::Failure(x) => Some(x),
        }
    }

    /// The exit code a terminal result reports: zero for a success, one for
    /// a failure.
    pub fn exit_code(&self) -> (c: i32)
        ensures
            self is Success <==> c == 0,
            self is Failure <==> c == 1,
    {
        match self {
            Result::Success(_) => 0,
            Result::Failure(_) => 1,
        }
    }
}

impl<T, E> Result<T, E> {
    /// Returns `true` if the result is a success.
    #[must_use]
    pub fn is_ok(&self) -> (r: bool)
        ensures
            r == (self is Success),
    {
        match self {
            Result::Success(_) => true,
            Result::Failure(_) => false,
        }
    }

    /// Returns `true` if the result is a failure.
    #[must_use]
    pub fn is_err(&self) -> (r: bool)
        ensures
            r == (self is Failure),
    {
        !self.is_ok()
    }

    /// Converts from `Result<T, E>` to `Option<T>`, consuming `self` and
    /// discarding the error, if any.
    pub fn ok(self) -> (r: Option<T>)
        ensures
            self is Success ==> r == Some(self->Success_0),
            self is Failure ==> r is None,
    {
        match self {
            Result::Success(x) => Some(x),
            Result::Failure(_) => None,
        }
    }

    /// Converts from `Result<T, E>` to `Option<E>`, consuming `self` and
    /// discarding the success value — and the trace — if any.
    pub fn err(self) -> (r: Option<E>)
        ensures
            self is Success ==> r is None,
            self is Failure ==> r == Some(self->Failure_0.error),
    {
        match self {
            Result::Success(_) => None,
            Result::Failure(x) => Some(x.error),
        }
    }

    /// Maps a `Result<T, E>` to `Result<T, F>` by applying a function to a
    /// contained error value, leaving a success value untouched.
    ///
    /// Mapping is not propagation: no location is recorded, and the trace is
    /// carried across identical in length and content.
    pub fn map_err<F, O: FnOnce(E) -> F>(self, op: O) -> (r: Result<T, F>)
        requires
            self is Failure ==> call_requires(op, (self->Failure_0.error,)),
        ensures
            self is Success ==> r is Success && r->Success_0 == self->Success_0,
            self is Failure ==> r is Failure
                && r->Failure_0.stack == self->Failure_0.stack
                && call_ensures(op, (self->Failure_0.error,), r->Failure_0.error),
    {
        match self {
            Result::Success(t) => Result::Success(t),
            Result::Failure(e) => Result::Failure(TracedError { error: op(e.error), stack: e.stack }),
        }
    }

    /// Returns the contained success value or the provided default.
    pub fn unwrap_or(self, default: T) -> (r: T)
        ensures
            self is Success ==> r == self->Success_0,
            self is Failure ==> r == default,
    {
        match self {
            Result::Success(t) => t,
            Result::Failure(_) => default,
        }
    }

    /// Returns the contained success value or computes one from the error
    /// with the given closure.
    pub fn unwrap_or_else<O: FnOnce(E) -> T>(self, op: O) -> (r: T)
        requires
            self is Failure ==> call_requires(op, (self->Failure_0.error,)),
        ensures
            self is Success ==> r == self->Success_0,
            self is Failure ==> call_ensures(op, (self->Failure_0.error,), r),
    {
        match self {
            Result::Success(t) => t,
            Result::Failure(e) => op(e.error),
        }
    }
}

impl<T, E: core::fmt::Debug> Result<T, E> {
    /// Returns the contained success value, consuming `self`.
    ///
    /// Must only be invoked on a success: calling it on a failure is a
    /// programmer error, which this contract rules out.
    pub fn expect(self, msg: &str) -> (r: T)
        requires
            self is Success,
        ensures
            r == self->Success_0,
    {
        let _ = msg;
        match self {
            Result::Success(t) => t,
            Result::Failure(_) => unreached(),
        }
    }

    /// Returns the contained success value, consuming `self`.
    ///
    /// Must only be invoked on a success: calling it on a failure is a
    /// programmer error, which this contract rules out.
    pub fn unwrap(self) -> (r: T)
        requires
            self is Success,
        ensures
            r == self->Success_0,
    {
        match self {
            Result::Success(t) => t,
            Result::Failure(_) => unreached(),
        }
    }
}

impl<T: core::fmt::Debug, E> Result<T, E> {
    /// Returns the contained error value, consuming `self`.
    ///
    /// Must only be invoked on a failure: calling it on a success is a
    /// programmer error, which this contract rules out.
    pub fn expect_err(self, msg: &str) -> (r: E)
        requires
            self is Failure,
        ensures
            r == self->Failure_0.error,
    {
        let _ = msg;
        match self {
            Result::Success(_) => unreached(),
            Result::Failure(e) => e.error,
        }
    }

    /// Returns the contained error value, consuming `self`.
    ///
    /// Must only be invoked on a failure: calling it on a success is a
    /// programmer error, which this contract rules out.
    pub fn unwrap_err(self) -> (r: E)
        requires
            self is Failure,
        ensures
            r == self->Failure_0.error,
    {
        match self {
            Result::Success(_) => unreached(),
            Result::Failure(e) => e.error,
        }
    }
}

impl<T: Default, E> Result<T, E> {
    /// Returns the contained success value or the default value of its type.
    pub fn unwrap_or_default(self) -> (r: T)
        ensures
            self is Success ==> r == self->Success_0,
            self is Failure ==> call_ensures(<T as Default>::default, (), r),
    {
        match self {
            Result::Success(x) => x,
            Result::Failure(_) => Default::default(),
        }
    }
}

impl<T, E> Result<Option<T>, E> {
    /// Transposes a `Result` of an `Option` into an `Option` of a `Result`.
    ///
    /// A success holding nothing becomes nothing; a success holding a value
    /// and a failure each keep their content — the failure its full trace.
    pub fn transpose(self) -> (r: Option<Result<T, E>>)
        ensures
            self is Success && self->Success_0 is Some ==> r is Some && r->0 is Success
                && r->0->Success_0 == self->Success_0->0,
            self is Success && self->Success_0 is None ==> r is None,
            self is Failure ==> r is Some && r->0 is Failure && r->0->Failure_0 == self->Failure_0,
    {
        match self {
            Result::Success(Some(x)) => Some(Result::Success(x)),
            Result::Success(None) => None,
            Result::Failure(e) => Some(Result::Failure(e)),
        }
    }
}

/// The trace carried by a failure raised at `origin` and then forwarded
/// through the propagation operation once per location in `forwards`:
/// construction leaves the trace at exactly `seq![origin]`, and each
/// forward appends the site of that forward, as the contracts of
/// [`Result::new_err`] and [`Result::propagate`] state.
pub open spec fn chain_trace(origin: CodeLocation, forwards: Seq<CodeLocation>) -> Seq<
    CodeLocation,
> {
    recorded_after(seq![origin], forwards)
}

/// Trace-length law: after a chain of `n` nested calls in which the
/// failure is raised by the innermost and forwarded by each of the `n - 1`
/// others through the propagation operation, the trace holds exactly `n`
/// locations, ordered from the origin outwards — one per frame, in the
/// order the failure passed them.
pub proof fn lemma_trace_length_invariant(origin: CodeLocation, forwards: Seq<CodeLocation>)
    ensures
        chain_trace(origin, forwards).len() == 1 + forwards.len(),
        chain_trace(origin, forwards)[0] == origin,
        forall|i: int|
            0 <= i < forwards.len() ==> chain_trace(origin, forwards)[1 + i] == forwards[i],
{
    lemma_recording_is_append_only(seq![origin], forwards);
}

/// The trace carried by a failure raised at `origin` after passing a chain
/// of frames, each a pair of a flag and the frame's own site: a frame whose
/// flag is set forwards the failure through the propagation operation,
/// recording its site; one whose flag is clear returns the failure
/// directly, invoking nothing.
pub open spec fn chain_trace_with_skips(
    origin: CodeLocation,
    frames: Seq<(bool, CodeLocation)>,
) -> Seq<CodeLocation>
    decreases frames.len(),
{
    if frames.len() == 0 {
        seq![origin]
    } else {
        let rest = chain_trace_with_skips(origin, frames.drop_last());
        if frames.last().0 {
            rest.push(frames.last().1)
        } else {
            rest
        }
    }
}

/// No-forward law: a frame that forwards a failure through the propagation
/// operation appends exactly its own site to the trace, while a frame that
/// returns the failure directly leaves the trace — its length and every
/// entry — unchanged, even though the failure passed through it.
pub proof fn lemma_no_forward_invariant(
    origin: CodeLocation,
    frames: Seq<(bool, CodeLocation)>,
    site: CodeLocation,
)
    ensures
        chain_trace_with_skips(origin, frames.push((true, site))) == chain_trace_with_skips(
            origin,
            frames,
        ).push(site),
        chain_trace_with_skips(origin, frames.push((false, site))) == chain_trace_with_skips(
            origin,
            frames,
        ),
{
    assert(frames.push((true, site)).drop_last() =~= frames);
    assert(frames.push((false, site)).drop_last() =~= frames);
}

/// A chain in which every frame forwards is a chain of forwards: the traces
/// of the two models agree, so the trace-length law applies to any chain
/// whose frames all use the propagation operation.
pub proof fn lemma_all_forwards_is_a_chain(origin: CodeLocation, frames: Seq<(bool, CodeLocation)>)
    requires
        forall|i: int| 0 <= i < frames.len() ==> (#[trigger] frames[i]).0,
    ensures
        chain_trace_with_skips(origin, frames) == chain_trace(
            origin,
            frames.map_values(|f: (bool, CodeLocation)| f.1),
        ),
    decreases frames.len(),
{
    let sites = frames.map_values(|f: (bool, CodeLocation)| f.1);
    if frames.len() == 0 {
        assert(sites =~= Seq::<CodeLocation>::empty());
    } else {
        lemma_all_forwards_is_a_chain(origin, frames.drop_last());
        assert(frames.drop_last().map_values(|f: (bool, CodeLocation)| f.1) =~= sites.drop_last());
        assert(sites.last() == frames.last().1);
    }
}

} // verus!
