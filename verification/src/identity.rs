//! The identity of a remote peer.

use vstd::prelude::*;

verus! {

/// A 32-byte identifier, derived by the authentication upgrade.
#[derive(Debug, Clone, Copy, PartialEq, Eq, Hash)]
pub struct PeerId {
    pub bytes: [u8; 32],
}

impl PeerId {
    pub fn from_bytes(bytes: [u8; 32]) -> (id: PeerId)
        ensures
            id.bytes == bytes,
    {
        PeerId { bytes }
    }

    pub fn to_bytes(&self) -> (bytes: [u8; 32])
        ensures
            bytes == self.bytes,
    {
        self.bytes
    }
}

} // verus!
