//! The closed set of failures that trust bootstrap and attestation report.

use vstd::prelude::*;
use vstd::string::StringExecFns;

verus! {

/// Why a step of trust bootstrap failed.
#[derive(Clone, Copy, Debug, PartialEq, Eq, Structural)]
pub enum TrustError {
    /// A file could not be probed, read or written.
    Io,
    /// A safe write found its destination already present.
    AlreadyExists,
    /// Key generation, signing or a check of issued material failed.
    Crypto,
    /// Key or certificate bytes could not be decoded.
    Parse,
    /// A path named by the configuration does not exist.
    Config,
}

impl TrustError {
    /// The text that describes this failure.
    pub open spec fn spec_message(self) -> Seq<char> {
        match self {
            TrustError::Io => "filesystem operation failed"@,
            TrustError::AlreadyExists => "refusing to overwrite an existing file"@,
            TrustError::Crypto => "cryptographic operation failed"@,
            TrustError::Parse => "malformed key or certificate"@,
            TrustError::Config => "configured file does not exist"@,
        }
    }

    /// Renders this failure for a log line or an exit message.
    pub fn message(&self) -> (text: String)
        ensures
            text@ == self.spec_message(),
    {
        match self {
            TrustError::Io => String::from_str("filesystem operation failed"),
            TrustError::AlreadyExists => String::from_str("refusing to overwrite an existing file"),
            TrustError::Crypto => String::from_str("cryptographic operation failed"),
            TrustError::Parse => String::from_str("malformed key or certificate"),
            TrustError::Config => String::from_str("configured file does not exist"),
        }
    }
}

/// Why an attestation report was rejected.
#[derive(Clone, Copy, Debug, PartialEq, Eq, Structural)]
pub enum VerificationError {
    /// The bytes are not those of a report.
    MalformedReport,
    /// The certificate could not be decoded, or holds no usable public key.
    MalformedCertificate,
    /// The certificate's key is not an elliptic-curve key.
    WrongKeyType,
    /// The signature does not cover the report's measurable bytes under the
    /// certificate's key.
    SignatureMismatch,
    /// The cryptographic library failed while checking the signature.
    Crypto,
}

impl VerificationError {
    /// The text that describes this rejection.
    pub open spec fn spec_message(self) -> Seq<char> {
        match self {
            VerificationError::MalformedReport => "malformed report"@,
            VerificationError::MalformedCertificate => "malformed certificate"@,
            VerificationError::WrongKeyType => "certificate key is not an elliptic-curve key"@,
            VerificationError::SignatureMismatch => "signature does not match the report"@,
            VerificationError::Crypto => "signature check failed"@,
        }
    }

    /// Renders this rejection for a log line.
    pub fn message(&self) -> (text: String)
        ensures
            text@ == self.spec_message(),
    {
        match self {
            VerificationError::MalformedReport => String::from_str("malformed report"),
            VerificationError::MalformedCertificate => String::from_str("malformed certificate"),
            VerificationError::WrongKeyType => String::from_str(
                "certificate key is not an elliptic-curve key",
            ),
            VerificationError::SignatureMismatch => String::from_str(
                "signature does not match the report",
            ),
            VerificationError::Crypto => String::from_str("signature check failed"),
        }
    }
}

} // verus!
