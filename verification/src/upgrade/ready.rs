//! The upgrade that hands the stream back at once.

use vstd::prelude::*;
use std::convert::Infallible;
use crate::poll::{Poll, TryFuture};
use crate::upgrade::{ProtocolName, Upgrade, UpgradeInfo};

verus! {

/// An upgrade with one protocol that does no I/O and returns the stream
/// unchanged.
#[derive(Debug, Copy, Clone)]
pub struct ReadyUpgrade<P> {
    pub protocol_name: P,
}

impl<P> ReadyUpgrade<P> {
    pub fn new(protocol_name: P) -> (upgrade: Self)
        ensures
            upgrade.protocol_name == protocol_name,
    {
        Self { protocol_name }
    }
}

/// A future that is ready with its value at the first poll.
#[derive(Debug)]
pub struct ReadyFuture<T, E> {
    pub value: Option<Result<T, E>>,
}

impl<T, E> TryFuture for ReadyFuture<T, E> {
    type Ok = T;

    type Error = E;
}

impl<T, E> ReadyFuture<T, E> {
    /// The one poll: hands the value out. Polling again is an error of the
    /// caller.
    pub fn poll(&mut self) -> (out: Poll<Result<T, E>>)
        requires
            old(self).value is Some,
        ensures
            out == Poll::Ready(old(self).value->0),
            final(self).value is None,
    {
        Poll::Ready(self.value.take().unwrap())
    }
}

impl<P> UpgradeInfo for ReadyUpgrade<P> where P: ProtocolName + Clone {
    type Info = P;

    /// One token: a clone of the protocol name.
    open spec fn protocol_info_spec(&self, infos: Seq<P>) -> bool {
        infos.len() == 1 && cloned(self.protocol_name, infos[0])
    }

    fn protocol_info(&self) -> (infos: Vec<P>) {
        let mut infos = Vec::new();
        infos.push(self.protocol_name.clone());
        infos
    }
}

impl<C, P> Upgrade<C> for ReadyUpgrade<P> where P: ProtocolName + Clone {
    type Output = C;

    type Error = Infallible;

    type Future = ReadyFuture<C, Infallible>;

    /// The future is ready with the stream itself.
    open spec fn upgrade_inbound_spec(self, stream: C, info: P, fut: Self::Future) -> bool {
        fut.value == Some(Ok::<C, Infallible>(stream))
    }

    /// The future is ready with the stream itself.
    open spec fn upgrade_outbound_spec(self, stream: C, info: P, fut: Self::Future) -> bool {
        fut.value == Some(Ok::<C, Infallible>(stream))
    }

    fn upgrade_inbound(self, stream: C, _info: P) -> (fut: Self::Future) {
        ReadyFuture { value: Some(Ok(stream)) }
    }

    fn upgrade_outbound(self, stream: C, _info: P) -> (fut: Self::Future) {
        ReadyFuture { value: Some(Ok(stream)) }
    }
}

} // verus!
