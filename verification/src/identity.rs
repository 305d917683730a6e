//! Player identities: 32-byte public identifiers, compared byte for byte.
use crate::bytes::bytes32_eq;
use vstd::prelude::*;
use vstd::std_specs::cmp::PartialEqSpecImpl;

verus! {

/// The public identifier of a player. The library never authenticates anyone:
/// it compares the identity that the caller vouches for with those stored in
/// the game.
#[derive(Clone, Copy, Debug, Eq)]
pub struct Identity {
    pub bytes: [u8; 32],
}

impl PartialEq for Identity {
    fn eq(&self, other: &Identity) -> (same: bool) {
        bytes32_eq(&self.bytes, &other.bytes)
    }
}

impl PartialEqSpecImpl for Identity {
    open spec fn obeys_eq_spec() -> bool {
        true
    }

    open spec fn eq_spec(&self, other: &Identity) -> bool {
        self.bytes == other.bytes
    }
}

impl Identity {
    /// The identity with the given bytes.
    pub fn new(bytes: [u8; 32]) -> (id: Identity)
        ensures
            id.bytes == bytes,
    {
        Identity { bytes }
    }

    /// Whether `candidate` is set and is this identity.
    pub fn is_held_by(&self, candidate: &Option<Identity>) -> (held: bool)
        ensures
            held == (*candidate == Some(*self)),
    {
        match candidate {
            Some(other) => *other == *self,
            None => false,
        }
    }
}

} // verus!
