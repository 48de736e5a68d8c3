//! Multiplexing one connection into many substreams.

use vstd::prelude::*;
use std::convert::Infallible;
use std::task::Context;
use crate::poll::Poll;

verus! {

/// The context that a task is polled with. The library hands it on to the
/// muxer and never looks inside.
#[verifier::external_type_specification]
#[verifier::external_body]
pub struct ExContext<'a>(Context<'a>);

/// An event of a muxer. None is defined yet: the type has no value, and is
/// there for later extension.
#[derive(Debug)]
pub struct StreamMuxerEvent(pub Infallible);

/// A multiplexer on one connection, which it owns.
///
/// Each operation is polled with the task's context. What an implementation
/// promises of an operation is the operation's `_spec`, over the muxer
/// before and after the poll and what the poll returned.
pub trait StreamMuxer: Sized {
    type Substream;

    type Error;

    open spec fn poll_inbound_spec(
        before: Self,
        after: Self,
        polled: Poll<Result<Self::Substream, Self::Error>>,
    ) -> bool {
        true
    }

    open spec fn poll_outbound_spec(
        before: Self,
        after: Self,
        polled: Poll<Result<Self::Substream, Self::Error>>,
    ) -> bool {
        true
    }

    open spec fn poll_close_spec(before: Self, after: Self, polled: Poll<Result<(), Self::Error>>) -> bool {
        true
    }

    open spec fn poll_spec(
        before: Self,
        after: Self,
        polled: Poll<Result<StreamMuxerEvent, Self::Error>>,
    ) -> bool {
        true
    }

    /// Polls for the next substream that the remote opened.
    fn poll_inbound(&mut self, cx: &mut Context<'_>) -> (polled: Poll<
        Result<Self::Substream, Self::Error>,
    >)
        ensures
            Self::poll_inbound_spec(*old(self), *final(self), polled),
    ;

    /// Polls for a new substream of our own.
    fn poll_outbound(&mut self, cx: &mut Context<'_>) -> (polled: Poll<
        Result<Self::Substream, Self::Error>,
    >)
        ensures
            Self::poll_outbound_spec(*old(self), *final(self), polled),
    ;

    /// Polls the closing of the muxer.
    fn poll_close(&mut self, cx: &mut Context<'_>) -> (polled: Poll<Result<(), Self::Error>>)
        ensures
            Self::poll_close_spec(*old(self), *final(self), polled),
    ;

    /// Polls for an event of the muxer itself.
    fn poll(&mut self, cx: &mut Context<'_>) -> (polled: Poll<Result<StreamMuxerEvent, Self::Error>>)
        ensures
            Self::poll_spec(*old(self), *final(self), polled),
    ;
}

/// The operations of a muxer under the names that callers with a plain
/// `&mut` use, and the closing future.
pub trait StreamMuxerExt: StreamMuxer + Sized {
    fn poll_inbound_unpin(&mut self, cx: &mut Context<'_>) -> (polled: Poll<
        Result<Self::Substream, Self::Error>,
    >)
        ensures
            Self::poll_inbound_spec(*old(self), *final(self), polled),
    {
        self.poll_inbound(cx)
    }

    fn poll_outbound_unpin(&mut self, cx: &mut Context<'_>) -> (polled: Poll<
        Result<Self::Substream, Self::Error>,
    >)
        ensures
            Self::poll_outbound_spec(*old(self), *final(self), polled),
    {
        self.poll_outbound(cx)
    }

    fn poll_unpin(&mut self, cx: &mut Context<'_>) -> (polled: Poll<
        Result<StreamMuxerEvent, Self::Error>,
    >)
        ensures
            Self::poll_spec(*old(self), *final(self), polled),
    {
        self.poll(cx)
    }

    fn poll_close_unpin(&mut self, cx: &mut Context<'_>) -> (polled: Poll<Result<(), Self::Error>>)
        ensures
            Self::poll_close_spec(*old(self), *final(self), polled),
    {
        self.poll_close(cx)
    }

    /// The future that closes the muxer.
    fn close(self) -> (closing: Close<Self>)
        ensures
            closing.0 == self,
    {
        Close(self)
    }
}

impl<S> StreamMuxerExt for S where S: StreamMuxer {
}

/// The future that closes a muxer.
pub struct Close<S>(pub S);

impl<S> Close<S> where S: StreamMuxer {
    /// One poll: polls the closing of the muxer.
    pub fn poll(&mut self, cx: &mut Context<'_>) -> (polled: Poll<Result<(), S::Error>>)
        ensures
            S::poll_close_spec(old(self).0, final(self).0, polled),
    {
        self.0.poll_close_unpin(cx)
    }
}

} // verus!
