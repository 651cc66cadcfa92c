use either::Either;
use vstd::prelude::*;

verus! {

/// `Either` is read by Verus as the plain two-variant enum it is.
#[verifier::external_type_specification]
#[verifier::reject_recursive_types(L)]
#[verifier::reject_recursive_types(R)]
pub struct ExEither<L, R>(Either<L, R>);

/// What is handed to the request handler in one call.
pub enum DispatchItem<F, D, C, I> {
    /// A decoded frame.
    Item(F),
    /// The decoder failed: the connection stops after this item.
    DecoderError(D),
    /// Encoding a response failed.
    EncoderError(C),
    /// The transport reported an error.
    IoError(I),
    /// No frame arrived before the keep-alive deadline.
    KeepAliveTimeout,
}

impl<F, D, C, I> DispatchItem<F, D, C, I> {
    /// Every variant but `Item` reports an error.
    pub open spec fn is_error(&self) -> bool {
        !(self is Item)
    }
}

/// The error that the shared cell holds until the dispatch loop consumes it.
pub enum DispatcherError<S, U> {
    /// The keep-alive deadline elapsed.
    KeepAlive,
    /// The encoder failed on a response.
    Encoder(U),
    /// The handler failed.
    Service(S),
}

impl<S, U> DispatcherError<S, U> {
    /// The error kind that a failed write-back of a response stands for.
    pub open spec fn of_either(err: Either<S, U>) -> Self {
        match err {
            Either::Left(e) => DispatcherError::Service(e),
            Either::Right(e) => DispatcherError::Encoder(e),
        }
    }
}

impl<S, U> From<Either<S, U>> for DispatcherError<S, U> {
    fn from(err: Either<S, U>) -> (r: Self)
        ensures
            r == Self::of_either(err),
    {
        match err {
            Either::Left(err) => DispatcherError::Service(err),
            Either::Right(err) => DispatcherError::Encoder(err),
        }
    }
}

impl<S, U> vstd::std_specs::convert::FromSpecImpl<Either<S, U>> for DispatcherError<S, U> {
    open spec fn obeys_from_spec() -> bool {
        true
    }

    open spec fn from_spec(v: Either<S, U>) -> Self {
        Self::of_either(v)
    }
}

} // verus!
