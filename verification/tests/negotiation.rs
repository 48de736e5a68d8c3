use airio::either::Either;
use airio::negotiation::{DialerSelectFuture, ListenerSelectFuture, Negotiated, NegotiationError};

fn dialer(protocols: Vec<&'static str>) -> DialerSelectFuture<(), &'static str> {
    DialerSelectFuture::new((), protocols)
}

fn listener(protocols: Vec<&'static str>) -> ListenerSelectFuture<(), &'static str> {
    ListenerSelectFuture::new((), protocols)
}

#[test]
fn dialer_proposes_in_order() {
    let d = dialer(vec!["/a", "/b"]);
    assert_eq!(d.proposal(0), Some("/a".to_string()));
    assert_eq!(d.proposal(1), Some("/b".to_string()));
    assert_eq!(d.proposal(2), None);
    assert_eq!(dialer(vec![]).proposal(0), None);
}

#[test]
fn listener_finds_the_first_protocol_of_a_name() {
    let l = listener(vec!["/a", "/b", "/a"]);
    assert_eq!(l.position("/a"), Some(0));
    assert_eq!(l.position("/b"), Some(1));
    assert_eq!(l.position("/c"), None);
    assert_eq!(l.position("/"), None);
    assert_eq!(listener(vec![]).position("/a"), None);
}

#[test]
fn negotiation_picks_the_first_proposal_that_is_supported() {
    assert_eq!(dialer(vec!["/a", "/b", "/c"]).negotiate(&listener(vec!["/c", "/b"])), Ok((1, 1)));
    assert_eq!(dialer(vec!["/c", "/b"]).negotiate(&listener(vec!["/c", "/b"])), Ok((0, 0)));
    assert_eq!(dialer(vec!["/x", "/b"]).negotiate(&listener(vec!["/a", "/b", "/b"])), Ok((1, 1)));
}

#[test]
fn negotiation_fails_without_a_common_protocol() {
    assert_eq!(
        dialer(vec!["/a", "/b"]).negotiate(&listener(vec!["/c"])),
        Err(NegotiationError::NoCommonProtocol)
    );
    assert_eq!(dialer(vec![]).negotiate(&listener(vec!["/c"])), Err(NegotiationError::NoCommonProtocol));
    assert_eq!(dialer(vec!["/a"]).negotiate(&listener(vec![])), Err(NegotiationError::NoCommonProtocol));
}

#[test]
fn negotiation_compares_names_across_token_types() {
    let d: DialerSelectFuture<(), Either<&'static str, String>> =
        DialerSelectFuture::new((), vec![Either::Left("/a"), Either::Right("/b".to_string())]);
    let l: ListenerSelectFuture<(), String> = ListenerSelectFuture::new((), vec!["/b".to_string()]);
    assert_eq!(d.negotiate(&l), Ok((1, 0)));
}

#[test]
fn negotiated_wraps_the_stream() {
    let n = Negotiated::new(7u8);
    assert_eq!(n.io, 7);
    assert_eq!(n.into_inner(), 7);
}
