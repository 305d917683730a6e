//! Hash commitments to a sequence of moves.
//!
//! A player commits to moves by publishing the Keccak-256 hash of the moves
//! followed by a 32-byte salt, and reveals them later by publishing moves and
//! salt. The reveal is accepted only if it hashes to the published value, byte
//! for byte. The salt keeps the few possible move sequences from being found
//! by trying them all; choosing it well is up to the player.
use crate::bytes::bytes32_eq;
use vstd::prelude::*;

verus! {

/// The Keccak-256 hash of `data`.
pub uninterp spec fn keccak256(data: Seq<u8>) -> [u8; 32];

/// Hashes `data` with `solana_program::keccak::hash` and returns the 32 bytes
/// of the result. The contract claims that those bytes are a function of the
/// bytes of `data` alone, which it names `keccak256`; nothing is claimed about
/// what that function is.
#[verifier::external_body]
#[allow(deprecated)]
fn keccak_hash(data: &[u8]) -> (digest: [u8; 32])
    ensures
        digest == keccak256(data@),
{
    solana_program::keccak::hash(data).to_bytes()
}

/// What is hashed: the moves, then the salt.
pub open spec fn commitment_input(moves: Seq<u8>, salt: [u8; 32]) -> Seq<u8> {
    moves + salt@
}

/// The commitment to `moves` under `salt`.
pub open spec fn commitment_of(moves: Seq<u8>, salt: [u8; 32]) -> [u8; 32] {
    keccak256(commitment_input(moves, salt))
}

/// Computes the commitment to `moves` under `salt`.
pub fn compute_commitment(moves: &[u8], salt: &[u8; 32]) -> (commitment: [u8; 32])
    ensures
        commitment == commitment_of(moves@, *salt),
{
    let mut input: Vec<u8> = Vec::new();
    input.extend_from_slice(moves);
    input.extend_from_slice(salt.as_slice());
    proof {
        assert(input@ =~= commitment_input(moves@, *salt));
    }
    keccak_hash(input.as_slice())
}

/// Whether `moves` and `salt` are what `expected` commits to.
pub fn verify_commitment(moves: &[u8], salt: &[u8; 32], expected: &[u8; 32]) -> (matches: bool)
    ensures
        matches == (commitment_of(moves@, *salt) == *expected),
{
    let computed = compute_commitment(moves, salt);
    bytes32_eq(&computed, expected)
}

} // verus!
