//! Verification of an attestation report against a certificate.
//!
//! The certificate's public key is taken as the platform's signing key. The
//! signature is checked over the report's measurable bytes as they stand:
//! the platform computes what it signs, and a further hash here would
//! change which reports are accepted.

use vstd::prelude::*;
use crate::decode::{
    ecdsa_accepts,
    has_encryption_header,
    read_certificate_key,
    read_public_key_kind,
    spec_certificate_key,
    spec_ecdsa_accepts,
    spec_has_encryption_header,
    spec_public_key_kind,
    KeyKind,
};
use crate::error::VerificationError;
use crate::ossl::MAX_INPUT;
use crate::report::{spec_report_of, AttestationReport, REPORT_SIZE};

verus! {

/// What the check of a signature comes to, given the algorithm of the
/// certificate's key and what the signature check said.
pub open spec fn spec_outcome(kind: Option<KeyKind>, accepted: Option<bool>) -> Result<
    (),
    VerificationError,
> {
    match kind {
        None => Err(VerificationError::MalformedCertificate),
        Some(KeyKind::EllipticCurve) => match accepted {
            Some(true) => Ok(()),
            Some(false) => Err(VerificationError::SignatureMismatch),
            None => Err(VerificationError::Crypto),
        },
        Some(_) => Err(VerificationError::WrongKeyType),
    }
}

/// What verification of `report` against `certificate` comes to.
pub open spec fn spec_verify(certificate: Seq<u8>, report: AttestationReport) -> Result<
    (),
    VerificationError,
> {
    if certificate.len() > MAX_INPUT || spec_has_encryption_header(certificate) {
        Err(VerificationError::MalformedCertificate)
    } else {
        match spec_certificate_key(certificate) {
            None => Err(VerificationError::MalformedCertificate),
            Some(key) => spec_outcome(
                spec_public_key_kind(key),
                spec_ecdsa_accepts(
                    key,
                    report.spec_measurable_bytes(),
                    report.signature.r@.reverse(),
                    report.signature.s@.reverse(),
                ),
            ),
        }
    }
}

/// Turns the algorithm of the certificate's key and the answer of the
/// signature check into acceptance or a typed rejection. A key that does not
/// decode makes the certificate malformed; a key of another algorithm than
/// elliptic-curve is the wrong type whatever the check said.
pub fn outcome(kind: Option<KeyKind>, accepted: Option<bool>) -> (r: Result<(), VerificationError>)
    ensures
        r == spec_outcome(kind, accepted),
{
    match kind {
        None => Err(VerificationError::MalformedCertificate),
        Some(KeyKind::EllipticCurve) => match accepted {
            Some(true) => Ok(()),
            Some(false) => Err(VerificationError::SignatureMismatch),
            None => Err(VerificationError::Crypto),
        },
        Some(_) => Err(VerificationError::WrongKeyType),
    }
}

/// The bytes of `bytes` in the opposite order.
fn reversed(bytes: &[u8]) -> (out: Vec<u8>)
    ensures
        out@ == bytes@.reverse(),
{
    let len = bytes.len();
    let mut out: Vec<u8> = Vec::new();
    let mut i: usize = 0;
    while i < len
        invariant
            i <= len,
            len == bytes@.len(),
            out@.len() == i,
            forall|j: int| 0 <= j < i ==> out@[j] == bytes@[len - 1 - j],
        decreases len - i,
    {
        out.push(bytes[len - 1 - i]);
        i = i + 1;
    }
    assert(out@ =~= bytes@.reverse());
    out
}

/// Verifies the signature of `report` against the public key of the
/// PEM-encoded `certificate`.
///
/// The signature components travel least significant byte first and are
/// handed to the check most significant byte first. The call keeps no state
/// and accepts any bytes: whatever is wrong with them comes back as a typed
/// rejection. A certificate that is too long to read, or whose encoding
/// announces encryption, is malformed: it is refused before it is decoded,
/// so that nobody is asked for a passphrase.
///
/// The check takes the measurable bytes for a digest, and of a digest only
/// as many leading bits as the order of the key's curve has. Under a key
/// on a 384-bit curve the last four of the 52 bytes, the policy word, do
/// not enter the check.
pub fn verify(certificate: &[u8], report: &AttestationReport) -> (r: Result<
    (),
    VerificationError,
>)
    ensures
        r == spec_verify(certificate@, *report),
{
    if certificate.len() > MAX_INPUT || has_encryption_header(certificate) {
        return Err(VerificationError::MalformedCertificate);
    }
    let key = match read_certificate_key(certificate) {
        Some(key) => key,
        None => {
            return Err(VerificationError::MalformedCertificate);
        },
    };
    let kind = read_public_key_kind(key.as_slice());
    let measured = report.measurable_bytes();
    let r = reversed(report.signature.r.as_slice());
    let s = reversed(report.signature.s.as_slice());
    let accepted = ecdsa_accepts(key.as_slice(), measured.as_slice(), r.as_slice(), s.as_slice());
    outcome(kind, accepted)
}

/// What verification of the report that `report` lays out comes to: bytes of
/// another length than a report's are no report.
pub open spec fn spec_verify_bytes(certificate: Seq<u8>, report: Seq<u8>) -> Result<
    (),
    VerificationError,
> {
    if report.len() == REPORT_SIZE {
        spec_verify(certificate, spec_report_of(report))
    } else {
        Err(VerificationError::MalformedReport)
    }
}

/// Verifies the signature of the report that the bytes `report` lay out
/// against the public key of the PEM-encoded `certificate`. Whatever the
/// bytes are, the answer is acceptance or a typed rejection.
pub fn verify_bytes(certificate: &[u8], report: &[u8]) -> (r: Result<(), VerificationError>)
    ensures
        r == spec_verify_bytes(certificate@, report@),
{
    match AttestationReport::from_bytes(report) {
        Some(report) => verify(certificate, &report),
        None => Err(VerificationError::MalformedReport),
    }
}

/// Verification reads nothing of a report but its measurable bytes and its
/// signature: two reports that agree on nonce, launch digest, policy and
/// signature fare alike against every certificate, whatever their other
/// words hold.
pub proof fn lemma_verify_reads_signed_range(
    certificate: Seq<u8>,
    a: AttestationReport,
    b: AttestationReport,
)
    requires
        a.nonce == b.nonce,
        a.launch_digest == b.launch_digest,
        a.policy == b.policy,
        a.signature == b.signature,
    ensures
        spec_verify(certificate, a) == spec_verify(certificate, b),
{
}

/// A report is accepted exactly when the certificate decodes, its key is an
/// elliptic-curve key, and the signature check accepts the report's
/// measurable bytes under that key.
pub proof fn lemma_acceptance(certificate: Seq<u8>, report: AttestationReport)
    ensures
        spec_verify(certificate, report) is Ok <==> {
            &&& certificate.len() <= MAX_INPUT
            &&& !spec_has_encryption_header(certificate)
            &&& spec_certificate_key(certificate) matches Some(key)
            &&& spec_public_key_kind(key) == Some(KeyKind::EllipticCurve)
            &&& spec_ecdsa_accepts(
                key,
                report.spec_measurable_bytes(),
                report.signature.r@.reverse(),
                report.signature.s@.reverse(),
            ) == Some(true)
        },
{
}

} // verus!
