use airio::either::Either;
use airio::negotiation::{Negotiated, NegotiationError};
use airio::poll::{Poll, Progress, TryFuture};
use airio::upgrade::apply::{ApplyEvent, UpgradeApply, UpgradeApplyState};
use airio::upgrade::{ReadyUpgrade, SelectUpgrade, Upgrade, UpgradeError, UpgradeInfo};

#[derive(Debug, PartialEq)]
struct Wire(u8);

#[derive(Debug, PartialEq)]
struct Started {
    inbound: bool,
    io: u8,
    info: &'static str,
}

impl TryFuture for Started {
    type Ok = u32;
    type Error = String;
}

#[derive(Clone)]
struct Recording;

impl UpgradeInfo for Recording {
    type Info = &'static str;

    fn protocol_info(&self) -> Vec<&'static str> {
        vec!["/one", "/two"]
    }
}

impl Upgrade<Negotiated<Wire>> for Recording {
    type Output = u32;
    type Error = String;
    type Future = Started;

    fn upgrade_inbound(self, stream: Negotiated<Wire>, info: &'static str) -> Started {
        Started { inbound: true, io: stream.into_inner().0, info }
    }

    fn upgrade_outbound(self, stream: Negotiated<Wire>, info: &'static str) -> Started {
        Started { inbound: false, io: stream.into_inner().0, info }
    }
}

#[test]
fn outbound_starts_as_dialer_with_the_offered_protocols() {
    let apply = UpgradeApply::new_outbound(Wire(3), Recording);
    match &apply.inner {
        UpgradeApplyState::DialerInit { future, .. } => {
            assert_eq!(future.io, Wire(3));
            assert_eq!(future.protocols, vec!["/one", "/two"]);
        }
        _ => panic!("a new outbound upgrade negotiates as the dialer"),
    }
}

#[test]
fn inbound_starts_as_listener_with_the_supported_protocols() {
    let apply = UpgradeApply::new_inbound(Wire(3), Recording);
    match &apply.inner {
        UpgradeApplyState::ListenerInit { future, .. } => {
            assert_eq!(future.io, Wire(3));
            assert_eq!(future.protocols, vec!["/one", "/two"]);
        }
        _ => panic!("a new inbound upgrade negotiates as the listener"),
    }
}

#[test]
fn dialer_runs_the_outbound_upgrade_under_the_agreed_protocol() {
    let mut apply = UpgradeApply::new_outbound(Wire(3), Recording);
    assert_eq!(apply.poll(ApplyEvent::Negotiated(Poll::Pending)), Progress::Pending);
    assert!(matches!(apply.inner, UpgradeApplyState::DialerInit { .. }));
    assert_eq!(apply.poll(ApplyEvent::Negotiated(Poll::Ready(Ok(1)))), Progress::Advanced);
    match &apply.inner {
        UpgradeApplyState::Upgrade { future, name } => {
            assert_eq!(*future, Started { inbound: false, io: 3, info: "/two" });
            assert_eq!(name, "/two");
        }
        _ => panic!("the upgrade runs after the negotiation"),
    }
    assert_eq!(apply.poll(ApplyEvent::Upgraded(Poll::Pending)), Progress::Pending);
    assert!(matches!(apply.inner, UpgradeApplyState::Upgrade { .. }));
    assert_eq!(apply.poll(ApplyEvent::Upgraded(Poll::Ready(Ok(99)))), Progress::Ready(Ok(99)));
    assert!(matches!(apply.inner, UpgradeApplyState::Undefined));
}

#[test]
fn listener_runs_the_inbound_upgrade_under_the_agreed_protocol() {
    let mut apply = UpgradeApply::new_inbound(Wire(4), Recording);
    assert_eq!(apply.poll(ApplyEvent::Negotiated(Poll::Pending)), Progress::Pending);
    assert!(matches!(apply.inner, UpgradeApplyState::ListenerInit { .. }));
    assert_eq!(apply.poll(ApplyEvent::Negotiated(Poll::Ready(Ok(0)))), Progress::Advanced);
    match &apply.inner {
        UpgradeApplyState::Upgrade { future, name } => {
            assert_eq!(*future, Started { inbound: true, io: 4, info: "/one" });
            assert_eq!(name, "/one");
        }
        _ => panic!("the upgrade runs after the negotiation"),
    }
}

#[test]
fn failed_negotiation_is_a_select_error() {
    let mut apply = UpgradeApply::new_outbound(Wire(3), Recording);
    let out = apply.poll(ApplyEvent::Negotiated(Poll::Ready(Err(NegotiationError::NoCommonProtocol))));
    assert_eq!(out, Progress::Ready(Err(UpgradeError::Select(NegotiationError::NoCommonProtocol))));
    assert!(matches!(apply.inner, UpgradeApplyState::Undefined));
    let mut apply = UpgradeApply::new_inbound(Wire(3), Recording);
    let out = apply.poll(ApplyEvent::Negotiated(Poll::Ready(Err(NegotiationError::PrematureEof))));
    assert_eq!(out, Progress::Ready(Err(UpgradeError::Select(NegotiationError::PrematureEof))));
    let mut apply = UpgradeApply::new_inbound(Wire(3), Recording);
    let out = apply.poll(ApplyEvent::Negotiated(Poll::Ready(Err(NegotiationError::MalformedFraming))));
    assert_eq!(out, Progress::Ready(Err(UpgradeError::Select(NegotiationError::MalformedFraming))));
}

#[test]
fn failed_upgrade_is_an_apply_error() {
    let mut apply = UpgradeApply::new_outbound(Wire(3), Recording);
    assert_eq!(apply.poll(ApplyEvent::Negotiated(Poll::Ready(Ok(0)))), Progress::Advanced);
    let out = apply.poll(ApplyEvent::Upgraded(Poll::Ready(Err("boom".to_string()))));
    assert_eq!(out, Progress::Ready(Err(UpgradeError::Apply("boom".to_string()))));
    assert!(matches!(apply.inner, UpgradeApplyState::Undefined));
}

#[test]
fn the_recorded_name_is_a_token_of_the_upgrade() {
    let upgrade = SelectUpgrade::new(ReadyUpgrade::new("/a"), ReadyUpgrade::new("/b"));
    let mut apply = UpgradeApply::new_outbound(Wire(1), upgrade);
    assert_eq!(apply.poll(ApplyEvent::Negotiated(Poll::Ready(Ok(1)))), Progress::Advanced);
    match &apply.inner {
        UpgradeApplyState::Upgrade { name, .. } => assert_eq!(name, "/b"),
        _ => panic!("the upgrade runs after the negotiation"),
    }
    let out = apply.poll(ApplyEvent::Upgraded(Poll::Ready(Ok(Either::Right(Negotiated::new(Wire(1)))))));
    match out {
        Progress::Ready(Ok(Either::Right(stream))) => assert_eq!(stream.into_inner(), Wire(1)),
        _ => panic!("the value of the second upgrade comes back tagged Right"),
    }
}

#[test]
fn upgrade_error_from_negotiation_error() {
    let e: UpgradeError<u8> = UpgradeError::from(NegotiationError::PrematureEof);
    assert_eq!(e, UpgradeError::Select(NegotiationError::PrematureEof));
}
