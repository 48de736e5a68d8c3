//! What the stack knows of protocol negotiation.
//!
//! The bytes on the wire belong to the negotiator that the driver runs. The
//! stack hands it a stream and the protocols to offer, in order, and takes
//! back the protocol that was agreed on and the stream.

use vstd::prelude::*;
use crate::upgrade::{names_of, ProtocolName};

verus! {

/// Why a negotiation ended without a protocol.
#[derive(Debug, Copy, Clone, PartialEq, Eq, Hash, Structural)]
pub enum NegotiationError {
    /// The two sides have no protocol in common.
    NoCommonProtocol,
    /// The remote sent what is no negotiation message.
    MalformedFraming,
    /// The stream ended before a protocol was agreed on.
    PrematureEof,
}

/// A stream on which a protocol has been agreed.
#[derive(Debug, PartialEq, Eq)]
pub struct Negotiated<T> {
    pub io: T,
}

impl<T> Negotiated<T> {
    pub fn new(io: T) -> (n: Self)
        ensures
            n.io == io,
    {
        Negotiated { io }
    }

    pub fn into_inner(self) -> (io: T)
        ensures
            io == self.io,
    {
        self.io
    }
}

/// The first place in `names` at which `name` stands, if it stands there.
pub open spec fn first_index(names: Seq<Seq<char>>, name: Seq<char>) -> Option<int>
    decreases names.len(),
{
    if names.len() == 0 {
        None
    } else if names.first() == name {
        Some(0)
    } else {
        match first_index(names.drop_first(), name) {
            Some(i) => Some(i + 1),
            None => None,
        }
    }
}

/// What a negotiation agrees on when the dialer proposes `offered`, in this
/// order, and the listener supports `supported`: the first proposal that the
/// listener supports, as its place in `offered` and its first place in
/// `supported`. `None` when no proposal is supported.
pub open spec fn agreed(offered: Seq<Seq<char>>, supported: Seq<Seq<char>>) -> Option<(int, int)>
    decreases offered.len(),
{
    if offered.len() == 0 {
        None
    } else {
        match first_index(supported, offered.first()) {
            Some(j) => Some((0, j)),
            None => match agreed(offered.drop_first(), supported) {
                Some((i, j)) => Some((i + 1, j)),
                None => None,
            },
        }
    }
}

/// `first_index` finds `name` exactly when it stands in `names`, at a place
/// before which it does not stand.
pub proof fn lemma_first_index(names: Seq<Seq<char>>, name: Seq<char>)
    ensures
        first_index(names, name) matches Some(i) ==> 0 <= i < names.len() && names[i] == name
            && forall|k: int| 0 <= k < i ==> names[k] != name,
        first_index(names, name) is None <==> !names.contains(name),
    decreases names.len(),
{
    if names.len() > 0 {
        let rest = names.drop_first();
        lemma_first_index(rest, name);
        if names.first() != name {
            assert forall|k: int| 0 <= k < names.len() && names[k] == name implies rest.contains(
                name,
            ) by {
                assert(rest[k - 1] == name);
            }
            if rest.contains(name) {
                let k = choose|k: int| 0 <= k < rest.len() && rest[k] == name;
                assert(names[k + 1] == name);
            }
            match first_index(rest, name) {
                Some(i) => {
                    assert forall|k: int| 0 <= k < i + 1 implies names[k] != name by {
                        if k > 0 {
                            assert(rest[k - 1] == names[k]);
                        }
                    }
                },
                None => {},
            }
        }
    }
}

/// Agreement: the protocol that is agreed on stands in both lists, no
/// earlier proposal of the dialer is supported by the listener, and there is
/// no agreement exactly when the two lists have no name in common.
pub proof fn lemma_agreed(offered: Seq<Seq<char>>, supported: Seq<Seq<char>>)
    ensures
        agreed(offered, supported) matches Some((i, j)) ==> {
            &&& 0 <= i < offered.len()
            &&& 0 <= j < supported.len()
            &&& offered[i] == supported[j]
            &&& first_index(supported, offered[i]) == Some(j)
            &&& forall|k: int| 0 <= k < i ==> !supported.contains(#[trigger] offered[k])
        },
        agreed(offered, supported) is None <==> forall|k: int|
            0 <= k < offered.len() ==> !supported.contains(#[trigger] offered[k]),
    decreases offered.len(),
{
    if offered.len() > 0 {
        let rest = offered.drop_first();
        lemma_first_index(supported, offered.first());
        lemma_agreed(rest, supported);
        match first_index(supported, offered.first()) {
            Some(j) => {
                assert(supported.contains(offered[0]));
            },
            None => {
                assert forall|k: int| 0 <= k < rest.len() implies rest[k] == offered[k + 1] by {}
                match agreed(rest, supported) {
                    Some((i, j)) => {
                        assert forall|k: int| 0 <= k < i + 1 implies !supported.contains(
                            #[trigger] offered[k],
                        ) by {
                            if k > 0 {
                                assert(rest[k - 1] == offered[k]);
                            }
                        }
                        assert(supported.contains(offered[i + 1]));
                    },
                    None => {
                        assert forall|k: int| 0 <= k < offered.len() implies !supported.contains(
                            #[trigger] offered[k],
                        ) by {
                            if k > 0 {
                                assert(rest[k - 1] == offered[k]);
                            }
                        }
                    },
                }
            },
        }
    }
}

/// The request to negotiate as the dialer: the stream, and the protocols to
/// propose in this order.
#[derive(Debug)]
pub struct DialerSelectFuture<C, I> {
    pub io: C,
    pub protocols: Vec<I>,
}

impl<C, I> DialerSelectFuture<C, I> {
    pub fn new(io: C, protocols: Vec<I>) -> (request: Self)
        ensures
            request.io == io,
            request.protocols == protocols,
    {
        DialerSelectFuture { io, protocols }
    }
}

impl<C, I: ProtocolName> DialerSelectFuture<C, I> {
    /// The name that the dialer proposes at its `attempt`-th try, counted
    /// from 0; `None` when every protocol has been tried.
    pub fn proposal(&self, attempt: usize) -> (name: Option<String>)
        ensures
            attempt < self.protocols@.len() ==> (name matches Some(n) && n@ == names_of(
                self.protocols@,
            )[attempt as int]),
            attempt >= self.protocols@.len() ==> name is None,
    {
        if attempt < self.protocols.len() {
            Some(self.protocols[attempt].name())
        } else {
            None
        }
    }

    /// Negotiates against a listener, in memory: proposes the protocols in
    /// their order until the listener supports one.
    ///
    /// Returns the place of the protocol agreed on among the dialer's
    /// protocols and among the listener's, as `agreed` gives it, and
    /// `NoCommonProtocol` when no protocol of the dialer is supported.
    pub fn negotiate<D, J: ProtocolName>(&self, listener: &ListenerSelectFuture<D, J>) -> (r: Result<
        (usize, usize),
        NegotiationError,
    >)
        ensures
            match agreed(names_of(self.protocols@), names_of(listener.protocols@)) {
                Some((i, j)) => r matches Ok((a, b)) && a == i && b == j,
                None => r == Err::<(usize, usize), NegotiationError>(
                    NegotiationError::NoCommonProtocol,
                ),
            },
    {
        let ghost offered = names_of(self.protocols@);
        let ghost supported = names_of(listener.protocols@);
        let mut attempt: usize = 0;
        proof {
            assert(offered.skip(0) =~= offered);
        }
        while attempt < self.protocols.len()
            invariant
                attempt <= self.protocols@.len(),
                offered == names_of(self.protocols@),
                supported == names_of(listener.protocols@),
                match agreed(offered.skip(attempt as int), supported) {
                    Some((i, j)) => agreed(offered, supported) == Some((i + attempt, j)),
                    None => agreed(offered, supported) is None,
                },
            decreases self.protocols@.len() - attempt,
        {
            let name = self.protocols[attempt].name();
            let ghost rest = offered.skip(attempt as int);
            proof {
                assert(rest.first() == name@);
                assert(rest.drop_first() =~= offered.skip(attempt + 1));
                lemma_first_index(supported, name@);
            }
            match listener.position(name.as_str()) {
                Some(j) => {
                    return Ok((attempt, j));
                },
                None => {},
            }
            attempt = attempt + 1;
        }
        proof {
            assert(offered.skip(attempt as int).len() == 0);
        }
        Err(NegotiationError::NoCommonProtocol)
    }
}

/// The request to negotiate as the listener: the stream, and the protocols
/// that are supported.
#[derive(Debug)]
pub struct ListenerSelectFuture<C, I> {
    pub io: C,
    pub protocols: Vec<I>,
}

impl<C, I> ListenerSelectFuture<C, I> {
    pub fn new(io: C, protocols: Vec<I>) -> (request: Self)
        ensures
            request.io == io,
            request.protocols == protocols,
    {
        ListenerSelectFuture { io, protocols }
    }
}

impl<C, I: ProtocolName> ListenerSelectFuture<C, I> {
    /// The place of the first supported protocol whose name is `name`;
    /// `None` when the listener supports no protocol of that name.
    pub fn position(&self, name: &str) -> (index: Option<usize>)
        ensures
            match first_index(names_of(self.protocols@), name@) {
                Some(i) => index matches Some(found) && found == i,
                None => index is None,
            },
    {
        let ghost names = names_of(self.protocols@);
        let wanted = name.to_owned();
        let mut i: usize = 0;
        proof {
            assert(names.skip(0) =~= names);
        }
        while i < self.protocols.len()
            invariant
                i <= self.protocols@.len(),
                wanted@ == name@,
                names == names_of(self.protocols@),
                match first_index(names.skip(i as int), name@) {
                    Some(k) => first_index(names, name@) == Some(k + i),
                    None => first_index(names, name@) is None,
                },
            decreases self.protocols@.len() - i,
        {
            let candidate = self.protocols[i].name();
            proof {
                assert(names.skip(i as int).first() == candidate@);
                assert(names.skip(i as int).drop_first() =~= names.skip(i + 1));
            }
            if candidate == wanted {
                return Some(i);
            }
            i = i + 1;
        }
        proof {
            assert(names.skip(i as int).len() == 0);
        }
        None
    }
}

} // verus!
