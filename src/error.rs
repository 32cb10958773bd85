//! The error kinds of the library.

use vstd::prelude::*;
use vstd::string::*;

verus! {

/// What went wrong, with the detail that the failing stage reported.
#[derive(Debug, Clone)]
pub enum FHEError {
    KeyDeserializationFailed { message: String },
    CrsDeserializationFailed { message: String },
    EncryptionFailed { message: String },
    ProofGenerationFailed { message: String },
    InvalidInput { message: String },
    SerializationFailed { message: String },
    NetworkFailed { message: String },
    NotInitialized,
}

impl FHEError {
    /// A one-line description: the kind, then the reported detail.
    pub fn describe(&self) -> (r: String)
        ensures
            r@ == match self {
                FHEError::KeyDeserializationFailed { message } => "Failed to deserialize public key: "@
                    + message@,
                FHEError::CrsDeserializationFailed { message } => "Failed to deserialize CRS: "@
                    + message@,
                FHEError::EncryptionFailed { message } => "Encryption failed: "@ + message@,
                FHEError::ProofGenerationFailed { message } => "Proof generation failed: "@ + message@,
                FHEError::InvalidInput { message } => "Invalid input: "@ + message@,
                FHEError::SerializationFailed { message } => "Serialization failed: "@ + message@,
                FHEError::NetworkFailed { message } => "Network request failed: "@ + message@,
                FHEError::NotInitialized => "Not initialized"@,
            },
    {
        let (head, detail) = match self {
            FHEError::KeyDeserializationFailed { message } => (
                "Failed to deserialize public key: ",
                message,
            ),
            FHEError::CrsDeserializationFailed { message } => ("Failed to deserialize CRS: ", message),
            FHEError::EncryptionFailed { message } => ("Encryption failed: ", message),
            FHEError::ProofGenerationFailed { message } => ("Proof generation failed: ", message),
            FHEError::InvalidInput { message } => ("Invalid input: ", message),
            FHEError::SerializationFailed { message } => ("Serialization failed: ", message),
            FHEError::NetworkFailed { message } => ("Network request failed: ", message),
            FHEError::NotInitialized => {
                return String::from_str("Not initialized");
            },
        };
        let mut out = String::from_str(head);
        out.append(detail.as_str());
        out
    }
}

} // verus!
