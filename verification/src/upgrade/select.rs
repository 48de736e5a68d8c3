//! The upgrade that offers two upgrades and runs the one that was agreed on.

use vstd::prelude::*;
use crate::either::{Either, EitherFuture};
use crate::negotiation::{agreed, lemma_agreed};
use crate::upgrade::{names_of, ProtocolName, Upgrade, UpgradeInfo};

verus! {

/// The sum of two upgrades: both are offered, `A` first.
#[derive(Debug, Clone)]
pub struct SelectUpgrade<A, B>(pub A, pub B);

impl<A, B> SelectUpgrade<A, B> {
    pub fn new(a: A, b: B) -> (upgrade: Self)
        ensures
            upgrade.0 == a,
            upgrade.1 == b,
    {
        SelectUpgrade(a, b)
    }
}

/// The tokens of `a` tagged `Left`, followed by the tokens of `b` tagged
/// `Right`.
pub open spec fn chain_tagged<A, B>(a: Seq<A>, b: Seq<B>) -> Seq<Either<A, B>> {
    Seq::new(
        a.len() + b.len(),
        |i: int|
            if i < a.len() {
                Either::Left(a[i])
            } else {
                Either::Right(b[i - a.len()])
            },
    )
}

impl<A, B> UpgradeInfo for SelectUpgrade<A, B> where A: UpgradeInfo, B: UpgradeInfo {
    type Info = Either<A::Info, B::Info>;

    /// The tokens of `A` tagged `Left`, then those of `B` tagged `Right`.
    open spec fn protocol_info_spec(&self, infos: Seq<Self::Info>) -> bool {
        exists|a: Seq<A::Info>, b: Seq<B::Info>|
            {
                &&& self.0.protocol_info_spec(a)
                &&& self.1.protocol_info_spec(b)
                &&& infos == #[trigger] chain_tagged(a, b)
            }
    }

    /// A `Left` token if `A` accepts it, a `Right` token if `B` does.
    open spec fn accepts(&self, info: Self::Info) -> bool {
        match info {
            Either::Left(i) => self.0.accepts(i),
            Either::Right(i) => self.1.accepts(i),
        }
    }

    fn protocol_info(&self) -> (infos: Vec<Self::Info>) {
        let mut a = self.0.protocol_info();
        let mut b = self.1.protocol_info();
        let ghost a0 = a@;
        let ghost b0 = b@;
        let mut infos: Vec<Self::Info> = Vec::new();
        while a.len() > 0
            invariant
                infos@.len() <= a0.len(),
                a@ == a0.subrange(infos@.len() as int, a0.len() as int),
                forall|i: int|
                    0 <= i < infos@.len() ==> infos@[i] == Either::<A::Info, B::Info>::Left(a0[i]),
            decreases a@.len(),
        {
            let item = a.remove(0);
            infos.push(Either::Left(item));
        }
        while b.len() > 0
            invariant
                a0.len() <= infos@.len() <= a0.len() + b0.len(),
                b@ == b0.subrange(infos@.len() - a0.len(), b0.len() as int),
                forall|i: int|
                    0 <= i < a0.len() ==> infos@[i] == Either::<A::Info, B::Info>::Left(a0[i]),
                forall|i: int|
                    a0.len() <= i < infos@.len() ==> infos@[i] == Either::<A::Info, B::Info>::Right(
                        b0[i - a0.len()],
                    ),
            decreases b@.len(),
        {
            let item = b.remove(0);
            infos.push(Either::Right(item));
        }
        proof {
            assert(infos@ =~= chain_tagged(a0, b0));
        }
        infos
    }
}

impl<C, A, B, TA, TB, EA, EB> Upgrade<C> for SelectUpgrade<A, B> where
    A: Upgrade<C, Output = TA, Error = EA>,
    B: Upgrade<C, Output = TB, Error = EB>,
 {
    type Output = Either<TA, TB>;

    type Error = Either<EA, EB>;

    type Future = EitherFuture<A::Future, B::Future>;

    /// A `Left` token runs `A`, a `Right` token runs `B`, inbound.
    open spec fn upgrade_inbound_spec(self, stream: C, info: Self::Info, fut: Self::Future) -> bool {
        match info {
            Either::Left(i) => fut matches EitherFuture::Left(f) && self.0.upgrade_inbound_spec(
                stream,
                i,
                f,
            ),
            Either::Right(i) => fut matches EitherFuture::Right(f) && self.1.upgrade_inbound_spec(
                stream,
                i,
                f,
            ),
        }
    }

    /// A `Left` token runs `A`, a `Right` token runs `B`, outbound.
    open spec fn upgrade_outbound_spec(self, stream: C, info: Self::Info, fut: Self::Future) -> bool {
        match info {
            Either::Left(i) => fut matches EitherFuture::Left(f) && self.0.upgrade_outbound_spec(
                stream,
                i,
                f,
            ),
            Either::Right(i) => fut matches EitherFuture::Right(f) && self.1.upgrade_outbound_spec(
                stream,
                i,
                f,
            ),
        }
    }

    fn upgrade_inbound(self, stream: C, info: Self::Info) -> (fut: Self::Future) {
        match info {
            Either::Left(info) => EitherFuture::Left(self.0.upgrade_inbound(stream, info)),
            Either::Right(info) => EitherFuture::Right(self.1.upgrade_inbound(stream, info)),
        }
    }

    fn upgrade_outbound(self, stream: C, info: Self::Info) -> (fut: Self::Future) {
        match info {
            Either::Left(info) => EitherFuture::Left(self.0.upgrade_outbound(stream, info)),
            Either::Right(info) => EitherFuture::Right(self.1.upgrade_outbound(stream, info)),
        }
    }
}

/// The names that a sum of two upgrades offers are the names of the first
/// followed by the names of the second.
pub proof fn lemma_chain_names<A: ProtocolName, B: ProtocolName>(a: Seq<A>, b: Seq<B>)
    ensures
        names_of(chain_tagged(a, b)) == names_of(a) + names_of(b),
{
    assert(names_of(chain_tagged(a, b)) =~= names_of(a) + names_of(b));
}

/// Negotiation agreement for sums of upgrades.
///
/// When the dialer offers the tokens of `SelectUpgrade(A, B)` and the
/// listener supports those of `SelectUpgrade(C, D)`, the protocol that is
/// agreed on is named by a token of the dialer and by a token of the
/// listener, the same name on both sides. When no name of the dialer is a
/// name of the listener, nothing is agreed on: the negotiation fails.
pub proof fn lemma_select_agreement<A, B, C, D>(
    dialer_a: Seq<A>,
    dialer_b: Seq<B>,
    listener_c: Seq<C>,
    listener_d: Seq<D>,
) where A: ProtocolName, B: ProtocolName, C: ProtocolName, D: ProtocolName
    ensures
        ({
            let offered = chain_tagged(dialer_a, dialer_b);
            let supported = chain_tagged(listener_c, listener_d);
            match agreed(names_of(offered), names_of(supported)) {
                Some((i, j)) => {
                    &&& 0 <= i < offered.len()
                    &&& 0 <= j < supported.len()
                    &&& offered[i].name_spec() == supported[j].name_spec()
                },
                None => forall|i: int, j: int|
                    0 <= i < offered.len() && 0 <= j < supported.len() ==> (
                    #[trigger] offered[i]).name_spec() != (#[trigger] supported[j]).name_spec(),
            }
        }),
{
    let offered = chain_tagged(dialer_a, dialer_b);
    let supported = chain_tagged(listener_c, listener_d);
    lemma_agreed(names_of(offered), names_of(supported));
    if agreed(names_of(offered), names_of(supported)) is None {
        assert forall|i: int, j: int|
            0 <= i < offered.len() && 0 <= j < supported.len() implies (
        #[trigger] offered[i]).name_spec() != (#[trigger] supported[j]).name_spec() by {
            assert(!names_of(supported).contains(names_of(offered)[i]));
            assert(names_of(supported)[j] == supported[j].name_spec());
        }
    }
}

} // verus!
