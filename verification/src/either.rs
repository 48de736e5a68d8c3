//! A value of one of two types, and the future of one of two futures.

use vstd::prelude::*;
use crate::poll::{Poll, TryFuture};

verus! {

/// A value that is either a `Left` or a `Right`.
#[derive(Debug, Copy, Clone, PartialEq, Eq, Hash)]
pub enum Either<A, B> {
    Left(A),
    Right(B),
}

impl<A, B> Either<A, B> {
    pub fn is_left(&self) -> (b: bool)
        ensures
            b == (*self is Left),
    {
        match self {
            Either::Left(_) => true,
            Either::Right(_) => false,
        }
    }

    pub fn is_right(&self) -> (b: bool)
        ensures
            b == (*self is Right),
    {
        match self {
            Either::Left(_) => false,
            Either::Right(_) => true,
        }
    }
}

/// The future of a sum of two upgrades: exactly one side is live, chosen when
/// the value is built.
#[derive(Debug, Copy, Clone)]
#[must_use]
pub enum EitherFuture<A, B> {
    Left(A),
    Right(B),
}

impl<A: TryFuture, B: TryFuture> TryFuture for EitherFuture<A, B> {
    type Ok = Either<A::Ok, B::Ok>;

    type Error = Either<A::Error, B::Error>;
}

/// What the sum of two futures reports when its live side reported `polled`:
/// the same readiness, with value and error tagged by the side.
pub open spec fn tag_polled<AO, AE, BO, BE>(
    polled: Either<Poll<Result<AO, AE>>, Poll<Result<BO, BE>>>,
) -> Poll<Result<Either<AO, BO>, Either<AE, BE>>> {
    match polled {
        Either::Left(Poll::Pending) => Poll::Pending,
        Either::Left(Poll::Ready(Ok(v))) => Poll::Ready(Ok(Either::Left(v))),
        Either::Left(Poll::Ready(Err(e))) => Poll::Ready(Err(Either::Left(e))),
        Either::Right(Poll::Pending) => Poll::Pending,
        Either::Right(Poll::Ready(Ok(v))) => Poll::Ready(Ok(Either::Right(v))),
        Either::Right(Poll::Ready(Err(e))) => Poll::Ready(Err(Either::Right(e))),
    }
}

impl<A: TryFuture, B: TryFuture> EitherFuture<A, B> {
    /// One poll. `polled` is what the live side reported, under that side's
    /// tag.
    pub fn poll(
        &mut self,
        polled: Either<Poll<Result<A::Ok, A::Error>>, Poll<Result<B::Ok, B::Error>>>,
    ) -> (out: Poll<Result<Either<A::Ok, B::Ok>, Either<A::Error, B::Error>>>)
        requires
            (*old(self) is Left) == (polled is Left),
        ensures
            out == tag_polled(polled),
            *final(self) == *old(self),
    {
        match polled {
            Either::Left(Poll::Pending) => Poll::Pending,
            Either::Left(Poll::Ready(Ok(v))) => Poll::Ready(Ok(Either::Left(v))),
            Either::Left(Poll::Ready(Err(e))) => Poll::Ready(Err(Either::Left(e))),
            Either::Right(Poll::Pending) => Poll::Pending,
            Either::Right(Poll::Ready(Ok(v))) => Poll::Ready(Ok(Either::Right(v))),
            Either::Right(Poll::Ready(Err(e))) => Poll::Ready(Err(Either::Right(e))),
        }
    }
}

} // verus!
