//! Driving one upgrade: first the negotiation, then the upgrade that was
//! agreed on.

use vstd::prelude::*;
use crate::negotiation::{DialerSelectFuture, ListenerSelectFuture, Negotiated, NegotiationError};
use crate::poll::{Poll, Progress, TryFuture};
use crate::upgrade::{names_of, ProtocolName, Upgrade, UpgradeError, UpgradeInfo};

verus! {

/// Where an `UpgradeApply` stands.
pub enum UpgradeApplyState<C, U> where U: Upgrade<Negotiated<C>> {
    /// Negotiating as the listener.
    ListenerInit { future: ListenerSelectFuture<C, U::Info>, upgrade: U },
    /// Negotiating as the dialer.
    DialerInit { future: DialerSelectFuture<C, U::Info>, upgrade: U },
    /// Running the upgrade under the protocol `name`.
    Upgrade { future: U::Future, name: String },
    /// Finished. A machine in this state is not polled.
    Undefined,
}

/// What the driver found when it polled for an `UpgradeApply`.
pub enum ApplyEvent<O, E> {
    /// What the negotiation reported. On success: the index, among the
    /// protocols of the request, of the protocol that was agreed on.
    Negotiated(Poll<Result<usize, NegotiationError>>),
    /// What the future of the upgrade reported.
    Upgraded(Poll<Result<O, E>>),
}

/// The state machine that applies an upgrade to a stream.
pub struct UpgradeApply<C, U> where U: Upgrade<Negotiated<C>> {
    pub inner: UpgradeApplyState<C, U>,
}

impl<C, U> TryFuture for UpgradeApply<C, U> where U: Upgrade<Negotiated<C>> {
    type Ok = U::Output;

    type Error = UpgradeError<U::Error>;
}

impl<C, U> UpgradeApply<C, U> where U: Upgrade<Negotiated<C>> {
    /// While negotiating, the upgrade accepts every protocol of the request.
    pub open spec fn wf(&self) -> bool {
        match self.inner {
            UpgradeApplyState::ListenerInit { future, upgrade } => forall|i: int|
                0 <= i < future.protocols@.len() ==> upgrade.accepts(#[trigger] future.protocols@[i]),
            UpgradeApplyState::DialerInit { future, upgrade } => forall|i: int|
                0 <= i < future.protocols@.len() ==> upgrade.accepts(#[trigger] future.protocols@[i]),
            _ => true,
        }
    }

    /// Whether the machine is negotiating: the driver then reports
    /// `ApplyEvent::Negotiated`, and `ApplyEvent::Upgraded` otherwise.
    pub open spec fn negotiating(&self) -> bool {
        self.inner is ListenerInit || self.inner is DialerInit
    }

    /// The protocols of the request while negotiating, none afterwards.
    pub open spec fn protocols(&self) -> Seq<U::Info> {
        match self.inner {
            UpgradeApplyState::ListenerInit { future, .. } => future.protocols@,
            UpgradeApplyState::DialerInit { future, .. } => future.protocols@,
            _ => Seq::empty(),
        }
    }

    /// The number of protocols offered while negotiating.
    pub open spec fn offered(&self) -> nat {
        self.protocols().len()
    }

    /// Whether `event` is one that the machine can take in this state.
    pub open spec fn expects(&self, event: ApplyEvent<U::Output, U::Error>) -> bool {
        &&& !(self.inner is Undefined)
        &&& self.negotiating() == (event is Negotiated)
        &&& event matches ApplyEvent::Negotiated(Poll::Ready(Ok(index))) ==> index < self.offered()
    }

    /// Starts an upgrade on the dialing side: the protocols of `upgrade` are
    /// proposed on `io`, in their order. Nothing is read or written yet.
    pub fn new_outbound(io: C, upgrade: U) -> (apply: Self)
        ensures
            apply.wf(),
            apply.inner matches UpgradeApplyState::DialerInit { future, upgrade: held },
            apply.inner matches UpgradeApplyState::DialerInit { future, upgrade: held } ==> {
                &&& held == upgrade
                &&& future.io == io
                &&& upgrade.protocol_info_spec(future.protocols@)
            },
    {
        let protocols = upgrade.protocol_info();
        UpgradeApply {
            inner: UpgradeApplyState::DialerInit {
                future: DialerSelectFuture::new(io, protocols),
                upgrade,
            },
        }
    }

    /// Starts an upgrade on the accepting side: the protocols of `upgrade`
    /// are the ones supported on `io`. Nothing is read or written yet.
    pub fn new_inbound(io: C, upgrade: U) -> (apply: Self)
        ensures
            apply.wf(),
            apply.inner matches UpgradeApplyState::ListenerInit { future, upgrade: held },
            apply.inner matches UpgradeApplyState::ListenerInit { future, upgrade: held } ==> {
                &&& held == upgrade
                &&& future.io == io
                &&& upgrade.protocol_info_spec(future.protocols@)
            },
    {
        let protocols = upgrade.protocol_info();
        UpgradeApply {
            inner: UpgradeApplyState::ListenerInit {
                future: ListenerSelectFuture::new(io, protocols),
                upgrade,
            },
        }
    }

    /// Whether a poll in state `self` that found `event` may report `out`
    /// and leave the state `after`.
    ///
    /// While negotiating: pending stays; a failure ends the machine with
    /// `Select`; an agreement on the protocol at `index` runs the upgrade on
    /// the stream of the request, inbound for the listener and outbound for
    /// the dialer, records the protocol's name and reports `Advanced`. While
    /// upgrading: pending stays; the value ends the machine unchanged, the
    /// error under `Apply`.
    pub open spec fn poll_spec(
        self,
        event: ApplyEvent<U::Output, U::Error>,
        after: Self,
        out: Progress<Result<U::Output, UpgradeError<U::Error>>>,
    ) -> bool {
        match (self.inner, event) {
            (UpgradeApplyState::ListenerInit { future, upgrade }, ApplyEvent::Negotiated(polled)) => {
                match polled {
                    Poll::Pending => out is Pending && after == self,
                    Poll::Ready(Err(e)) => {
                        &&& out == Progress::<Result<U::Output, UpgradeError<U::Error>>>::Ready(
                            Err(UpgradeError::Select(e)),
                        )
                        &&& after.inner is Undefined
                    },
                    Poll::Ready(Ok(index)) => {
                        &&& out is Advanced
                        &&& after.inner matches UpgradeApplyState::Upgrade { future: fut, name }
                        &&& upgrade.upgrade_inbound_spec(
                            Negotiated { io: future.io },
                            future.protocols@[index as int],
                            fut,
                        )
                        &&& name@ == future.protocols@[index as int].name_spec()
                    },
                }
            },
            (UpgradeApplyState::DialerInit { future, upgrade }, ApplyEvent::Negotiated(polled)) => {
                match polled {
                    Poll::Pending => out is Pending && after == self,
                    Poll::Ready(Err(e)) => {
                        &&& out == Progress::<Result<U::Output, UpgradeError<U::Error>>>::Ready(
                            Err(UpgradeError::Select(e)),
                        )
                        &&& after.inner is Undefined
                    },
                    Poll::Ready(Ok(index)) => {
                        &&& out is Advanced
                        &&& after.inner matches UpgradeApplyState::Upgrade { future: fut, name }
                        &&& upgrade.upgrade_outbound_spec(
                            Negotiated { io: future.io },
                            future.protocols@[index as int],
                            fut,
                        )
                        &&& name@ == future.protocols@[index as int].name_spec()
                    },
                }
            },
            (UpgradeApplyState::Upgrade { future, name }, ApplyEvent::Upgraded(polled)) => {
                match polled {
                    Poll::Pending => out is Pending && after == self,
                    Poll::Ready(Ok(x)) => {
                        &&& out == Progress::<Result<U::Output, UpgradeError<U::Error>>>::Ready(Ok(x))
                        &&& after.inner is Undefined
                    },
                    Poll::Ready(Err(e)) => {
                        &&& out == Progress::<Result<U::Output, UpgradeError<U::Error>>>::Ready(
                            Err(UpgradeError::Apply(e)),
                        )
                        &&& after.inner is Undefined
                    },
                }
            },
            _ => false,
        }
    }

    /// One step. `event` is what the driver found: the outcome of the
    /// negotiation while the machine negotiates, of the upgrade's future
    /// afterwards.
    pub fn poll(&mut self, event: ApplyEvent<U::Output, U::Error>) -> (out: Progress<
        Result<U::Output, UpgradeError<U::Error>>,
    >)
        requires
            old(self).wf(),
            old(self).expects(event),
        ensures
            old(self).poll_spec(event, *final(self), out),
            final(self).wf(),
    {
        let mut state = UpgradeApplyState::Undefined;
        std::mem::swap(&mut self.inner, &mut state);
        match (state, event) {
            (UpgradeApplyState::DialerInit { future, upgrade }, ApplyEvent::Negotiated(polled)) => {
                match polled {
                    Poll::Pending => {
                        self.inner = UpgradeApplyState::DialerInit { future, upgrade };
                        Progress::Pending
                    },
                    Poll::Ready(Err(e)) => Progress::Ready(Err(UpgradeError::Select(e))),
                    Poll::Ready(Ok(index)) => {
                        let DialerSelectFuture { io, mut protocols } = future;
                        let info = protocols.swap_remove(index);
                        let name = info.name();
                        self.inner = UpgradeApplyState::Upgrade {
                            future: upgrade.upgrade_outbound(Negotiated::new(io), info),
                            name,
                        };
                        Progress::Advanced
                    },
                }
            },
            (UpgradeApplyState::ListenerInit { future, upgrade }, ApplyEvent::Negotiated(polled)) => {
                match polled {
                    Poll::Pending => {
                        self.inner = UpgradeApplyState::ListenerInit { future, upgrade };
                        Progress::Pending
                    },
                    Poll::Ready(Err(e)) => Progress::Ready(Err(UpgradeError::Select(e))),
                    Poll::Ready(Ok(index)) => {
                        let ListenerSelectFuture { io, mut protocols } = future;
                        let info = protocols.swap_remove(index);
                        let name = info.name();
                        self.inner = UpgradeApplyState::Upgrade {
                            future: upgrade.upgrade_inbound(Negotiated::new(io), info),
                            name,
                        };
                        Progress::Advanced
                    },
                }
            },
            (UpgradeApplyState::Upgrade { future, name }, ApplyEvent::Upgraded(polled)) => {
                match polled {
                    Poll::Ready(Ok(x)) => Progress::Ready(Ok(x)),
                    Poll::Ready(Err(e)) => Progress::Ready(Err(UpgradeError::Apply(e))),
                    Poll::Pending => {
                        self.inner = UpgradeApplyState::Upgrade { future, name };
                        Progress::Pending
                    },
                }
            },
            _ => vstd::pervasive::unreached(),
        }
    }
}

/// The upgrade's future is made once, after the negotiation.
///
/// While the machine negotiates, it moves on to the upgrade exactly when
/// the negotiation reports an agreement; pending keeps it negotiating and a
/// failure ends it. Once the upgrade runs, the machine never negotiates
/// again: it keeps the same future until that future is ready, and then it
/// is finished.
pub proof fn lemma_apply_upgrades_once<C, U>(
    apply: UpgradeApply<C, U>,
    event: ApplyEvent<U::Output, U::Error>,
    after: UpgradeApply<C, U>,
    out: Progress<Result<U::Output, UpgradeError<U::Error>>>,
) where U: Upgrade<Negotiated<C>>
    requires
        apply.poll_spec(event, after, out),
    ensures
        apply.negotiating() ==> (after.inner is Upgrade <==> event matches ApplyEvent::Negotiated(
            Poll::Ready(Ok(_)),
        )),
        apply.negotiating() ==> (after.negotiating() <==> event matches ApplyEvent::Negotiated(
            Poll::Pending,
        )),
        apply.inner is Upgrade ==> !after.negotiating(),
        apply.inner is Upgrade && after.inner is Upgrade ==> after == apply && out is Pending,
        out is Ready <==> after.inner is Undefined,
        out is Advanced ==> apply.negotiating() && after.inner is Upgrade,
{
}

/// The protocol that is recorded when the upgrade starts is one that the
/// upgrade offered: its name is the name of the token, among the
/// protocols of the request, that the negotiation agreed on.
pub proof fn lemma_apply_runs_offered_protocol<C, U>(
    apply: UpgradeApply<C, U>,
    index: usize,
    after: UpgradeApply<C, U>,
    out: Progress<Result<U::Output, UpgradeError<U::Error>>>,
) where U: Upgrade<Negotiated<C>>
    requires
        apply.negotiating(),
        index < apply.offered(),
        apply.poll_spec(ApplyEvent::Negotiated(Poll::Ready(Ok(index))), after, out),
    ensures
        after.inner matches UpgradeApplyState::Upgrade { name, .. } && names_of(
            apply.protocols(),
        ).contains(name@) && name@ == names_of(apply.protocols())[index as int],
{
    let names = names_of(apply.protocols());
    assert(names[index as int] == apply.protocols()[index as int].name_spec());
}

} // verus!
