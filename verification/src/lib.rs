//! Keypairs whose public key is the SHA-256 digest of the private key, and the
//! keyed-hash tags that such a keypair puts on messages.
//!
//! The tag is `SHA-256(message || private key)`: a shared-secret message
//! authentication code. It is no public-key signature, because checking a tag
//! takes the private key and the public key plays no part in it.

pub mod digest;
pub mod error;
pub mod generator;
pub mod json;
pub mod keypair;
pub mod record;
pub mod signer;

pub use keypair::Keypair;
pub use signer::Signer;
pub use error::KeypairError;
pub use generator::Generator;
