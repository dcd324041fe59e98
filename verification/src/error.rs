//! What can go wrong when a keypair is stored or restored.

use vstd::prelude::*;
use vstd::string::StringExecFns;

verus! {

/// Text reported for a record that does not hold a keypair.
pub const DESERIALIZATION_MESSAGE: &'static str = "Failed to deserialize keypair";

/// A failure to store or to restore a keypair.
#[derive(Debug, Clone, PartialEq, Eq)]
pub enum KeypairError {
    /// The storage location could not be read or written; the text is the
    /// operating system's account of it.
    Io(String),
    /// The stored bytes are not a record of two 32-byte keys.
    Deserialization,
    /// The keypair could not be encoded; the text is the encoder's account of
    /// it.
    Serialization(String),
}

impl KeypairError {
    /// The human-readable text of this error.
    pub open spec fn message_text(&self) -> Seq<char> {
        match self {
            KeypairError::Io(text) => text@,
            KeypairError::Deserialization => DESERIALIZATION_MESSAGE@,
            KeypairError::Serialization(text) => text@,
        }
    }

    /// The human-readable text of this error.
    pub fn message(&self) -> (text: String)
        ensures
            text@ == self.message_text(),
    {
        match self {
            KeypairError::Io(text) => text.clone(),
            KeypairError::Deserialization => String::from_str(DESERIALIZATION_MESSAGE),
            KeypairError::Serialization(text) => text.clone(),
        }
    }
}

} // verus!
