//! The keypair and the invariant that ties its two halves together.

use crate::digest::{sha256, sha256_digest};
use vstd::prelude::*;

verus! {

/// A private key and the public key derived from it.
///
/// The fields are public, so a value can be put together by hand;
/// [`Keypair::is_derived`] says whether its public key is the one that belongs
/// to its private key. Every constructor of this crate returns such a value.
#[derive(Debug, Clone, PartialEq, Eq)]
pub struct Keypair {
    /// Private 32-byte key.
    pub private_key: [u8; 32],
    /// Public 32-byte key.
    pub public_key: [u8; 32],
}

impl Keypair {
    /// The public key is the SHA-256 digest of the private key.
    pub open spec fn is_derived(&self) -> bool {
        self.public_key == sha256(self.private_key@)
    }

    /// The keypair that belongs to `private_key`.
    pub fn from_private_key(private_key: [u8; 32]) -> (keypair: Keypair)
        ensures
            keypair.private_key == private_key,
            keypair.is_derived(),
    {
        let public_key = sha256_digest(&private_key);
        Keypair { private_key, public_key }
    }

    /// Derived keypairs with the same private key are the same keypair.
    pub proof fn law_private_key_determines_keypair(self, other: Keypair)
        requires
            self.is_derived(),
            other.is_derived(),
            self.private_key@ == other.private_key@,
        ensures
            self == other,
    {
        assert(self.private_key =~= other.private_key);
    }
}

} // verus!
