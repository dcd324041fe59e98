//! Making keypairs: fresh from random bytes, or back from their stored form.

use crate::error::KeypairError;
use crate::json::{json_object, json_record, parse_record, write_record};
use crate::keypair::Keypair;
use crate::record::{stored_private_key, Record};
use rand::Rng;
use vstd::prelude::*;

verus! {

/// The private key that the JSON text `data` stores, if `data` is the stored
/// form of a keypair.
pub open spec fn decoded_private_key(data: Seq<u8>) -> Option<Seq<u8>> {
    match json_record(data) {
        Some(record) => stored_private_key(record),
        None => None,
    }
}

/// Fills 32 bytes from the thread-local generator `rand::rng()` with
/// `Rng::fill`.
///
/// Nothing is claimed of the bytes: they differ from call to call. `rand`
/// panics where the operating system cannot seed the generator.
#[verifier::external_body]
fn random_key() -> (key: [u8; 32]) {
    let mut key: [u8; 32] = [0; 32];
    rand::rng().fill(&mut key);
    key
}

/// Generator trait responsible for generating and saving keypairs.
pub trait Generator {
    /// The record that `save_to_bytes` writes.
    spec fn stored_record(&self) -> Record;

    /// Generate a new random keypair.
    ///
    /// The private key is drawn from the thread-local generator of `rand`;
    /// [`Keypair::from_private_key`] does the rest, and takes a private key
    /// from any other source as well.
    fn generate() -> (keypair: Keypair)
        ensures
            keypair.is_derived(),
    ;

    /// Try to restore a keypair from its JSON text.
    ///
    /// Succeeds exactly on the stored form of a keypair. The public key of
    /// the result is derived from the stored private key; the stored public
    /// key is left aside.
    fn try_restore_from_bytes(data: &[u8]) -> (restored: Result<Keypair, KeypairError>)
        ensures
            match restored {
                Ok(keypair) => decoded_private_key(data@) == Some(keypair.private_key@)
                    && keypair.is_derived(),
                Err(error) => error == KeypairError::Deserialization && decoded_private_key(data@)
                    is None,
            },
    ;

    /// The keypair as JSON text, both keys included.
    ///
    /// Fails exactly where the encoder does, with the encoder's words.
    fn save_to_bytes(&self) -> (saved: Result<Vec<u8>, KeypairError>)
        ensures
            match saved {
                Ok(data) => json_object(self.stored_record()) == Some(data@),
                Err(error) => error is Serialization && json_object(self.stored_record()) is None,
            },
    ;
}

impl Generator for Keypair {
    open spec fn stored_record(&self) -> Record {
        self.record()
    }

    fn generate() -> (keypair: Keypair) {
        Keypair::from_private_key(random_key())
    }

    fn try_restore_from_bytes(data: &[u8]) -> (restored: Result<Keypair, KeypairError>) {
        match parse_record(data) {
            Ok(fields) => Keypair::from_record(&fields),
            Err(_) => Err(KeypairError::Deserialization),
        }
    }

    fn save_to_bytes(&self) -> (saved: Result<Vec<u8>, KeypairError>) {
        let fields = self.to_record();
        match write_record(&fields) {
            Ok(data) => Ok(data),
            Err(error) => Err(KeypairError::Serialization(error.to_string())),
        }
    }
}

impl Keypair {
    /// Restoring succeeds on every text that reads as the record of this
    /// keypair, and finds this keypair's private key in it.
    ///
    /// That the text which `save_to_bytes` writes reads as that record is
    /// `serde_json`'s part of the round trip; it is not proved here.
    pub proof fn law_restore_from_own_record(self, data: Seq<u8>)
        ensures
            json_record(data) == Some(self.record()) ==> decoded_private_key(data) == Some(
                self.private_key@,
            ),
    {
        self.law_record_round_trip();
    }
}

} // verus!
