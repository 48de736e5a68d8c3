//! One of two upgrades.

use vstd::prelude::*;
use vstd::pervasive::unreached;
use crate::either::{Either, EitherFuture};
use crate::upgrade::select::chain_tagged;
use crate::upgrade::{Upgrade, UpgradeInfo};

verus! {

impl<A, B> UpgradeInfo for Either<A, B> where A: UpgradeInfo, B: UpgradeInfo {
    type Info = Either<A::Info, B::Info>;

    /// The tokens of the side that the value holds, under that side's tag.
    open spec fn protocol_info_spec(&self, infos: Seq<Self::Info>) -> bool {
        match self {
            Either::Left(a) => exists|tokens: Seq<A::Info>|
                a.protocol_info_spec(tokens) && infos == #[trigger] chain_tagged(
                    tokens,
                    Seq::<B::Info>::empty(),
                ),
            Either::Right(b) => exists|tokens: Seq<B::Info>|
                b.protocol_info_spec(tokens) && infos == #[trigger] chain_tagged(
                    Seq::<A::Info>::empty(),
                    tokens,
                ),
        }
    }

    /// A token of the side that the value holds, if that side accepts it.
    open spec fn accepts(&self, info: Self::Info) -> bool {
        match (*self, info) {
            (Either::Left(a), Either::Left(i)) => a.accepts(i),
            (Either::Right(b), Either::Right(i)) => b.accepts(i),
            _ => false,
        }
    }

    fn protocol_info(&self) -> (infos: Vec<Self::Info>) {
        let mut infos: Vec<Self::Info> = Vec::new();
        match self {
            Either::Left(a) => {
                let mut tokens = a.protocol_info();
                let ghost all = tokens@;
                while tokens.len() > 0
                    invariant
                        infos@.len() <= all.len(),
                        tokens@ == all.subrange(infos@.len() as int, all.len() as int),
                        forall|i: int|
                            0 <= i < infos@.len() ==> infos@[i] == Either::<
                                A::Info,
                                B::Info,
                            >::Left(all[i]),
                    decreases tokens@.len(),
                {
                    let item = tokens.remove(0);
                    infos.push(Either::Left(item));
                }
                proof {
                    assert(infos@ =~= chain_tagged(all, Seq::<B::Info>::empty()));
                }
            },
            Either::Right(b) => {
                let mut tokens = b.protocol_info();
                let ghost all = tokens@;
                while tokens.len() > 0
                    invariant
                        infos@.len() <= all.len(),
                        tokens@ == all.subrange(infos@.len() as int, all.len() as int),
                        forall|i: int|
                            0 <= i < infos@.len() ==> infos@[i] == Either::<
                                A::Info,
                                B::Info,
                            >::Right(all[i]),
                    decreases tokens@.len(),
                {
                    let item = tokens.remove(0);
                    infos.push(Either::Right(item));
                }
                proof {
                    assert(infos@ =~= chain_tagged(Seq::<A::Info>::empty(), all));
                }
            },
        }
        infos
    }
}

impl<C, A, B, TA, TB, EA, EB> Upgrade<C> for Either<A, B> where
    A: Upgrade<C, Output = TA, Error = EA>,
    B: Upgrade<C, Output = TB, Error = EB>,
 {
    type Output = Either<TA, TB>;

    type Error = Either<EA, EB>;

    type Future = EitherFuture<A::Future, B::Future>;

    /// The side that the value holds runs, inbound.
    open spec fn upgrade_inbound_spec(self, stream: C, info: Self::Info, fut: Self::Future) -> bool {
        match (self, info) {
            (Either::Left(a), Either::Left(i)) => fut matches EitherFuture::Left(f)
                && a.upgrade_inbound_spec(stream, i, f),
            (Either::Right(b), Either::Right(i)) => fut matches EitherFuture::Right(f)
                && b.upgrade_inbound_spec(stream, i, f),
            _ => false,
        }
    }

    /// The side that the value holds runs, outbound.
    open spec fn upgrade_outbound_spec(self, stream: C, info: Self::Info, fut: Self::Future) -> bool {
        match (self, info) {
            (Either::Left(a), Either::Left(i)) => fut matches EitherFuture::Left(f)
                && a.upgrade_outbound_spec(stream, i, f),
            (Either::Right(b), Either::Right(i)) => fut matches EitherFuture::Right(f)
                && b.upgrade_outbound_spec(stream, i, f),
            _ => false,
        }
    }

    fn upgrade_inbound(self, stream: C, info: Self::Info) -> (fut: Self::Future) {
        match (self, info) {
            (Either::Left(a), Either::Left(info)) => EitherFuture::Left(
                a.upgrade_inbound(stream, info),
            ),
            (Either::Right(b), Either::Right(info)) => EitherFuture::Right(
                b.upgrade_inbound(stream, info),
            ),
            _ => unreached(),
        }
    }

    fn upgrade_outbound(self, stream: C, info: Self::Info) -> (fut: Self::Future) {
        match (self, info) {
            (Either::Left(a), Either::Left(info)) => EitherFuture::Left(
                a.upgrade_outbound(stream, info),
            ),
            (Either::Right(b), Either::Right(info)) => EitherFuture::Right(
                b.upgrade_outbound(stream, info),
            ),
            _ => unreached(),
        }
    }
}

} // verus!
