//! The upgrade that never finishes.

use vstd::prelude::*;
use std::convert::Infallible;
use std::marker::PhantomData;
use crate::poll::{Poll, TryFuture};
use crate::upgrade::{ProtocolName, Upgrade, UpgradeInfo};

verus! {

/// An upgrade with one protocol whose future never resolves: a placeholder
/// that makes the branch fail if it is selected.
#[derive(Debug, Copy, Clone)]
pub struct PendingUpgrade<P> {
    pub protocol_name: P,
}

impl<P> PendingUpgrade<P> {
    pub fn new(protocol_name: P) -> (upgrade: Self)
        ensures
            upgrade.protocol_name == protocol_name,
    {
        Self { protocol_name }
    }
}

/// A future that is pending at every poll.
#[derive(Debug)]
pub struct PendingFuture<T, E> {
    pub marker: PhantomData<(T, E)>,
}

impl<T, E> TryFuture for PendingFuture<T, E> {
    type Ok = T;

    type Error = E;
}

impl<T, E> PendingFuture<T, E> {
    pub fn poll(&self) -> (out: Poll<Result<T, E>>)
        ensures
            out is Pending,
    {
        Poll::Pending
    }
}

impl<P> UpgradeInfo for PendingUpgrade<P> where P: ProtocolName + Clone {
    type Info = P;

    /// One token: a clone of the protocol name.
    open spec fn protocol_info_spec(&self, infos: Seq<P>) -> bool {
        infos.len() == 1 && cloned(self.protocol_name, infos[0])
    }

    fn protocol_info(&self) -> (infos: Vec<P>) {
        let mut infos = Vec::new();
        infos.push(self.protocol_name.clone());
        infos
    }
}

impl<C, P> Upgrade<C> for PendingUpgrade<P> where P: ProtocolName + Clone {
    type Output = Infallible;

    type Error = Infallible;

    type Future = PendingFuture<Infallible, Infallible>;

    fn upgrade_inbound(self, _stream: C, _info: P) -> (fut: Self::Future) {
        PendingFuture { marker: PhantomData }
    }

    fn upgrade_outbound(self, _stream: C, _info: P) -> (fut: Self::Future) {
        PendingFuture { marker: PhantomData }
    }
}

} // verus!
