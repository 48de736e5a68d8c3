//! The capability to turn a stream into something more, once a protocol has
//! been agreed on.

pub mod apply;
pub mod either;
pub mod error;
pub mod pending;
pub mod ready;
pub mod select;

use vstd::prelude::*;
use crate::either::Either;
use crate::poll::TryFuture;

pub use error::UpgradeError;
pub use pending::PendingUpgrade;
pub use ready::ReadyUpgrade;
pub use select::SelectUpgrade;

verus! {

/// A token that names a protocol. Two tokens name the same protocol when
/// their names are equal strings.
pub trait ProtocolName {
    spec fn name_spec(&self) -> Seq<char>;

    fn name(&self) -> (s: String)
        ensures
            s@ == self.name_spec(),
    ;
}

impl<'a> ProtocolName for &'a str {
    open spec fn name_spec(&self) -> Seq<char> {
        self@
    }

    fn name(&self) -> (s: String) {
        (*self).to_owned()
    }
}

impl ProtocolName for String {
    open spec fn name_spec(&self) -> Seq<char> {
        self@
    }

    fn name(&self) -> (s: String) {
        self.clone()
    }
}

impl<A: ProtocolName, B: ProtocolName> ProtocolName for Either<A, B> {
    open spec fn name_spec(&self) -> Seq<char> {
        match self {
            Either::Left(a) => a.name_spec(),
            Either::Right(b) => b.name_spec(),
        }
    }

    fn name(&self) -> (s: String) {
        match self {
            Either::Left(a) => a.name(),
            Either::Right(b) => b.name(),
        }
    }
}

/// The names of a sequence of tokens, in the same order.
pub open spec fn names_of<I: ProtocolName>(infos: Seq<I>) -> Seq<Seq<char>> {
    Seq::new(infos.len(), |i: int| infos[i].name_spec())
}

/// The protocols that an upgrade offers.
pub trait UpgradeInfo {
    type Info: ProtocolName + Clone;

    /// Whether `protocol_info` may return `infos`. The order is the order of
    /// preference when dialing.
    open spec fn protocol_info_spec(&self, infos: Seq<Self::Info>) -> bool {
        true
    }

    /// Whether the upgrade can be run with `info`: every token that
    /// `protocol_info` returns can.
    open spec fn accepts(&self, info: Self::Info) -> bool {
        true
    }

    fn protocol_info(&self) -> (infos: Vec<Self::Info>)
        ensures
            self.protocol_info_spec(infos@),
            forall|i: int| 0 <= i < infos@.len() ==> self.accepts(#[trigger] infos@[i]),
    ;
}

/// An upgrade of a stream `S`.
///
/// `upgrade_inbound` runs on the side that accepted the connection,
/// `upgrade_outbound` on the side that dialed; each consumes the upgrade.
pub trait Upgrade<S>: UpgradeInfo + Sized {
    type Output;

    type Error;

    type Future: TryFuture<Ok = Self::Output, Error = Self::Error>;

    /// Whether `upgrade_inbound(stream, info)` may return `fut`.
    open spec fn upgrade_inbound_spec(self, stream: S, info: Self::Info, fut: Self::Future) -> bool {
        true
    }

    /// Whether `upgrade_outbound(stream, info)` may return `fut`.
    open spec fn upgrade_outbound_spec(self, stream: S, info: Self::Info, fut: Self::Future) -> bool {
        true
    }

    fn upgrade_inbound(self, stream: S, info: Self::Info) -> (fut: Self::Future)
        requires
            self.accepts(info),
        ensures
            self.upgrade_inbound_spec(stream, info, fut),
    ;

    fn upgrade_outbound(self, stream: S, info: Self::Info) -> (fut: Self::Future)
        requires
            self.accepts(info),
        ensures
            self.upgrade_outbound_spec(stream, info, fut),
    ;
}

} // verus!
