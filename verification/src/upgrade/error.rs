//! How applying an upgrade can fail.

use vstd::prelude::*;
use crate::negotiation::NegotiationError;

verus! {

/// The failure of one upgrade step, tagged by where it came from.
#[derive(Debug, Copy, Clone, PartialEq, Eq)]
pub enum UpgradeError<E> {
    /// No protocol was agreed on.
    Select(NegotiationError),
    /// The upgrade that was agreed on failed.
    Apply(E),
}

impl<E> From<NegotiationError> for UpgradeError<E> {
    /// A failed negotiation is the failure `Select`.
    fn from(err: NegotiationError) -> (e: Self) {
        UpgradeError::Select(err)
    }
}

impl<E> vstd::std_specs::convert::FromSpecImpl<NegotiationError> for UpgradeError<E> {
    open spec fn obeys_from_spec() -> bool {
        true
    }

    open spec fn from_spec(err: NegotiationError) -> Self {
        UpgradeError::Select(err)
    }
}

} // verus!
