//! What OpenSSL reads out of encoded keys and certificates.
//!
//! Decoding is a function of the bytes alone, and far too long to write
//! down here, so each reading has a name: a specification function without
//! a body. The function that makes the call is trusted to return exactly
//! what the name stands for; the rest of the crate reasons over the names.
//! Every reader stops the process on input longer than a C `int` can count,
//! which its precondition leaves out.
//!
//! An encrypted PEM block makes OpenSSL ask for a passphrase, at the
//! terminal unless it is given one, and what is read then depends on the
//! answer. Private keys are read with the empty passphrase, which hands
//! OpenSSL nothing to call back: a key that is encrypted under another
//! passphrase does not decode, and what is read is a function of the bytes.
//! For certificates the crate offers no such call: their readers leave out
//! by precondition every input that holds the header by which a PEM block
//! announces encryption.

use vstd::prelude::*;
use openssl::asn1::Asn1Time;
use openssl::bn::BigNum;
use openssl::ecdsa::EcdsaSig;
use openssl::nid::Nid;
use openssl::pkey::{Id, PKey};
use openssl::x509::X509;
use vstd::slice::slice_subrange;
use crate::bytes::same_bytes;
use crate::ossl::MAX_INPUT;

verus! {

/// The bytes `Proc-Type`, with which the header of an encrypted PEM block
/// begins.
pub open spec fn spec_encryption_marker() -> Seq<u8> {
    seq![80u8, 114u8, 111u8, 99u8, 45u8, 84u8, 121u8, 112u8, 101u8]
}

/// Whether `pem` holds the encryption marker at the offset `at`.
pub open spec fn spec_marker_at(pem: Seq<u8>, at: int) -> bool {
    0 <= at && at + 9 <= pem.len() && pem.subrange(at, at + 9) == spec_encryption_marker()
}

/// Whether `pem` holds, anywhere, the header by which a PEM block announces
/// that it is encrypted.
pub open spec fn spec_has_encryption_header(pem: Seq<u8>) -> bool {
    exists|at: int| spec_marker_at(pem, at)
}

/// Tells whether `pem` holds, anywhere, the header by which a PEM block
/// announces that it is encrypted. No certificate needs one, and the bytes
/// of the marker cannot occur in the body of a block.
pub fn has_encryption_header(pem: &[u8]) -> (r: bool)
    ensures
        r == spec_has_encryption_header(pem@),
{
    let marker: [u8; 9] = [80u8, 114u8, 111u8, 99u8, 45u8, 84u8, 121u8, 112u8, 101u8];
    assert(marker@ =~= spec_encryption_marker());
    let len = pem.len();
    if len < 9 {
        return false;
    }
    let last = len - 9;
    let mut at: usize = 0;
    while at <= last
        invariant
            len == pem@.len(),
            last == len - 9,
            at <= last + 1,
            marker@ == spec_encryption_marker(),
            forall|before: int| 0 <= before < at ==> !spec_marker_at(pem@, before),
        decreases last + 1 - at,
    {
        if same_bytes(slice_subrange(pem, at, at + 9), marker.as_slice()) {
            assert(spec_marker_at(pem@, at as int));
            return true;
        }
        at = at + 1;
    }
    false
}

/// The algorithm of a key, as far as this crate tells algorithms apart.
#[derive(Clone, Copy, Debug, PartialEq, Eq, Structural)]
pub enum KeyKind {
    Rsa,
    EllipticCurve,
    Ed25519,
    Other,
}

/// The digest of a signature, as far as this crate tells digests apart.
#[derive(Clone, Copy, Debug, PartialEq, Eq, Structural)]
pub enum DigestKind {
    Sha256,
    Other,
}

/// The public half, as SubjectPublicKeyInfo PEM, of the private key that
/// `private_pem` encodes; `None` where it encodes none.
pub uninterp spec fn spec_public_pem(private_pem: Seq<u8>) -> Option<Seq<u8>>;

/// The private key that `private_pem` encodes, encoded again as unencrypted
/// PKCS#8 PEM; `None` where it encodes none.
pub uninterp spec fn spec_pkcs8_pem(private_pem: Seq<u8>) -> Option<Seq<u8>>;

/// The public half, as SubjectPublicKeyInfo DER, of the private key that
/// `private_pem` encodes; `None` where it encodes none.
pub uninterp spec fn spec_public_der(private_pem: Seq<u8>) -> Option<Seq<u8>>;

/// The algorithm and size in bits of the private key that `private_pem`
/// encodes; `None` where it encodes none.
pub uninterp spec fn spec_private_key_facts(private_pem: Seq<u8>) -> Option<(KeyKind, u32)>;

/// The algorithm of the public key that the SubjectPublicKeyInfo DER
/// `public_der` encodes; `None` where it encodes none.
pub uninterp spec fn spec_public_key_kind(public_der: Seq<u8>) -> Option<KeyKind>;

/// The certificate that `pem` encodes, encoded again as PEM; `None` where
/// it encodes none.
pub uninterp spec fn spec_certificate_pem(pem: Seq<u8>) -> Option<Seq<u8>>;

/// The version field, counting from 0, of the certificate that `pem`
/// encodes; `None` where it encodes none.
pub uninterp spec fn spec_version(pem: Seq<u8>) -> Option<i32>;

/// The serial number, as big-endian bytes of its magnitude, of the
/// certificate that `pem` encodes; `None` where it encodes none.
pub uninterp spec fn spec_serial(pem: Seq<u8>) -> Option<Seq<u8>>;

/// The digest algorithm of the signature on the certificate that `pem`
/// encodes; `None` where it encodes none or its signature algorithm is not
/// one that the library knows.
pub uninterp spec fn spec_signature_digest(pem: Seq<u8>) -> Option<DigestKind>;

/// The number of attributes in the subject of the certificate that `pem`
/// encodes; `None` where it encodes none.
pub uninterp spec fn spec_subject_entries(pem: Seq<u8>) -> Option<usize>;

/// The first common name of the subject of the certificate that `pem`
/// encodes, converted to text; `None` where it encodes none or the subject
/// has no common name.
pub uninterp spec fn spec_subject_common_name(pem: Seq<u8>) -> Option<Seq<char>>;

/// The subject, as DER, of the certificate that `pem` encodes; `None` where
/// it encodes none.
pub uninterp spec fn spec_subject(pem: Seq<u8>) -> Option<Seq<u8>>;

/// The issuer, as DER, of the certificate that `pem` encodes; `None` where
/// it encodes none.
pub uninterp spec fn spec_issuer(pem: Seq<u8>) -> Option<Seq<u8>>;

/// The start of the validity window of the certificate that `pem` encodes, as
/// whole days and remaining seconds since the Unix epoch; `None` where it
/// encodes none.
pub uninterp spec fn spec_not_before(pem: Seq<u8>) -> Option<(i32, i32)>;

/// The end of the validity window of the certificate that `pem` encodes, as
/// whole days and remaining seconds since the Unix epoch; `None` where it
/// encodes none.
pub uninterp spec fn spec_not_after(pem: Seq<u8>) -> Option<(i32, i32)>;

/// The public key, as SubjectPublicKeyInfo DER, embedded in the certificate
/// that `pem` encodes; `None` where it encodes none or holds no usable key.
pub uninterp spec fn spec_certificate_key(pem: Seq<u8>) -> Option<Seq<u8>>;

/// Whether the signature on the certificate that `pem` encodes verifies
/// under the public key that `public_der` encodes; `None` where either does
/// not decode or the check itself fails.
pub uninterp spec fn spec_signed_by(pem: Seq<u8>, public_der: Seq<u8>) -> Option<bool>;

/// Whether the ECDSA signature with the big-endian components `r` and `s` is
/// valid for `digest`, taken as it stands with no further hashing, under the
/// elliptic-curve public key that `public_der` encodes; `None` where the key
/// does not decode as one or the check itself fails.
pub uninterp spec fn spec_ecdsa_accepts(
    public_der: Seq<u8>,
    digest: Seq<u8>,
    r: Seq<u8>,
    s: Seq<u8>,
) -> Option<bool>;

/// The view of an optional byte vector.
pub open spec fn bytes_view(bytes: Option<Vec<u8>>) -> Option<Seq<u8>> {
    match bytes {
        Some(b) => Some(b@),
        None => None,
    }
}

/// The view of an optional string.
pub open spec fn text_view(text: Option<String>) -> Option<Seq<char>> {
    match text {
        Some(t) => Some(t@),
        None => None,
    }
}

/// `PKey::private_key_from_pem_passphrase` and `PKeyRef::public_key_to_pem`:
/// the public half of the key in `private_pem`, as PEM.
#[verifier::external_body]
pub(crate) fn read_public_pem(private_pem: &[u8]) -> (r: Option<Vec<u8>>)
    requires
        private_pem@.len() <= MAX_INPUT,
    ensures
        bytes_view(r) == spec_public_pem(private_pem@),
{
    let key = PKey::private_key_from_pem_passphrase(private_pem, &[]).ok()?;
    key.public_key_to_pem().ok()
}

/// `PKey::private_key_from_pem_passphrase` and
/// `PKeyRef::private_key_to_pem_pkcs8`: the key in `private_pem`, as PKCS#8
/// PEM.
#[verifier::external_body]
pub(crate) fn read_pkcs8_pem(private_pem: &[u8]) -> (r: Option<Vec<u8>>)
    requires
        private_pem@.len() <= MAX_INPUT,
    ensures
        bytes_view(r) == spec_pkcs8_pem(private_pem@),
{
    let key = PKey::private_key_from_pem_passphrase(private_pem, &[]).ok()?;
    key.private_key_to_pem_pkcs8().ok()
}

/// `PKey::private_key_from_pem_passphrase` and `PKeyRef::public_key_to_der`:
/// the public half of the key in `private_pem`, as DER.
#[verifier::external_body]
pub(crate) fn read_public_der(private_pem: &[u8]) -> (r: Option<Vec<u8>>)
    requires
        private_pem@.len() <= MAX_INPUT,
    ensures
        bytes_view(r) == spec_public_der(private_pem@),
{
    let key = PKey::private_key_from_pem_passphrase(private_pem, &[]).ok()?;
    key.public_key_to_der().ok()
}

/// `PKey::private_key_from_pem_passphrase`, `PKeyRef::id` and `PKeyRef::bits`:
/// the algorithm and size of the key in `private_pem`.
#[verifier::external_body]
pub(crate) fn read_private_key_facts(private_pem: &[u8]) -> (r: Option<(KeyKind, u32)>)
    requires
        private_pem@.len() <= MAX_INPUT,
    ensures
        r == spec_private_key_facts(private_pem@),
{
    let key = PKey::private_key_from_pem_passphrase(private_pem, &[]).ok()?;
    let kind = match key.id() {
        Id::RSA => KeyKind::Rsa,
        Id::EC => KeyKind::EllipticCurve,
        Id::ED25519 => KeyKind::Ed25519,
        _ => KeyKind::Other,
    };
    Some((kind, key.bits()))
}

/// `PKey::public_key_from_der` and `PKeyRef::id`: the algorithm of the key in
/// `public_der`.
#[verifier::external_body]
pub(crate) fn read_public_key_kind(public_der: &[u8]) -> (r: Option<KeyKind>)
    ensures
        r == spec_public_key_kind(public_der@),
{
    Some(match PKey::public_key_from_der(public_der).ok()?.id() {
        Id::RSA => KeyKind::Rsa,
        Id::EC => KeyKind::EllipticCurve,
        Id::ED25519 => KeyKind::Ed25519,
        _ => KeyKind::Other,
    })
}

/// `X509::from_pem` and `X509Ref::to_pem`: the certificate, encoded again.
#[verifier::external_body]
pub(crate) fn read_certificate_pem(pem: &[u8]) -> (r: Option<Vec<u8>>)
    requires
        pem@.len() <= MAX_INPUT,
        !spec_has_encryption_header(pem@),
    ensures
        bytes_view(r) == spec_certificate_pem(pem@),
{
    X509::from_pem(pem).ok()?.to_pem().ok()
}

/// `X509::from_pem` and `X509Ref::version`: the certificate's version field.
#[verifier::external_body]
pub(crate) fn read_version(pem: &[u8]) -> (r: Option<i32>)
    requires
        pem@.len() <= MAX_INPUT,
        !spec_has_encryption_header(pem@),
    ensures
        r == spec_version(pem@),
{
    Some(X509::from_pem(pem).ok()?.version())
}

/// `X509::from_pem`, `X509Ref::serial_number`, `Asn1IntegerRef::to_bn` and
/// `BigNumRef::to_vec`: the certificate's serial number.
#[verifier::external_body]
pub(crate) fn read_serial(pem: &[u8]) -> (r: Option<Vec<u8>>)
    requires
        pem@.len() <= MAX_INPUT,
        !spec_has_encryption_header(pem@),
    ensures
        bytes_view(r) == spec_serial(pem@),
{
    Some(X509::from_pem(pem).ok()?.serial_number().to_bn().ok()?.to_vec())
}

/// `X509::from_pem`, `X509Ref::signature_algorithm`,
/// `X509AlgorithmRef::object`, `Asn1ObjectRef::nid` and
/// `Nid::signature_algorithms`: the digest of the certificate's signature.
#[verifier::external_body]
pub(crate) fn read_signature_digest(pem: &[u8]) -> (r: Option<DigestKind>)
    requires
        pem@.len() <= MAX_INPUT,
        !spec_has_encryption_header(pem@),
    ensures
        r == spec_signature_digest(pem@),
{
    let certificate = X509::from_pem(pem).ok()?;
    let algorithm = certificate.signature_algorithm().object().nid();
    Some(match algorithm.signature_algorithms()?.digest {
        Nid::SHA256 => DigestKind::Sha256,
        _ => DigestKind::Other,
    })
}

/// `X509::from_pem`, `X509Ref::subject_name` and `X509NameRef::entries`: the
/// number of attributes in the subject.
#[verifier::external_body]
pub(crate) fn read_subject_entries(pem: &[u8]) -> (r: Option<usize>)
    requires
        pem@.len() <= MAX_INPUT,
        !spec_has_encryption_header(pem@),
    ensures
        r == spec_subject_entries(pem@),
{
    Some(X509::from_pem(pem).ok()?.subject_name().entries().count())
}

/// `X509::from_pem`, `X509Ref::subject_name`, `X509NameRef::entries_by_nid`
/// and `Asn1StringRef::to_string`: the subject's first common name, as text:
/// the call converts the attribute to UTF-8 and replaces what does not
/// convert.
#[verifier::external_body]
pub(crate) fn read_subject_common_name(pem: &[u8]) -> (r: Option<String>)
    requires
        pem@.len() <= MAX_INPUT,
        !spec_has_encryption_header(pem@),
    ensures
        text_view(r) == spec_subject_common_name(pem@),
{
    let certificate = X509::from_pem(pem).ok()?;
    let entry = certificate.subject_name().entries_by_nid(Nid::COMMONNAME).next()?;
    entry.data().to_string().ok()
}

/// `X509::from_pem`, `X509Ref::subject_name` and `X509NameRef::to_der`: the
/// certificate's subject.
#[verifier::external_body]
pub(crate) fn read_subject(pem: &[u8]) -> (r: Option<Vec<u8>>)
    requires
        pem@.len() <= MAX_INPUT,
        !spec_has_encryption_header(pem@),
    ensures
        bytes_view(r) == spec_subject(pem@),
{
    X509::from_pem(pem).ok()?.subject_name().to_der().ok()
}

/// `X509::from_pem`, `X509Ref::issuer_name` and `X509NameRef::to_der`: the
/// certificate's issuer.
#[verifier::external_body]
pub(crate) fn read_issuer(pem: &[u8]) -> (r: Option<Vec<u8>>)
    requires
        pem@.len() <= MAX_INPUT,
        !spec_has_encryption_header(pem@),
    ensures
        bytes_view(r) == spec_issuer(pem@),
{
    X509::from_pem(pem).ok()?.issuer_name().to_der().ok()
}

/// `X509::from_pem`, `X509Ref::not_before`, `Asn1Time::from_unix` and
/// `Asn1TimeRef::diff`: the start of the validity window, counted from the
/// Unix epoch.
#[verifier::external_body]
pub(crate) fn read_not_before(pem: &[u8]) -> (r: Option<(i32, i32)>)
    requires
        pem@.len() <= MAX_INPUT,
        !spec_has_encryption_header(pem@),
    ensures
        r == spec_not_before(pem@),
{
    let certificate = X509::from_pem(pem).ok()?;
    let since = Asn1Time::from_unix(0).ok()?.diff(certificate.not_before()).ok()?;
    Some((since.days, since.secs))
}

/// `X509::from_pem`, `X509Ref::not_after`, `Asn1Time::from_unix` and
/// `Asn1TimeRef::diff`: the end of the validity window, counted from the
/// Unix epoch.
#[verifier::external_body]
pub(crate) fn read_not_after(pem: &[u8]) -> (r: Option<(i32, i32)>)
    requires
        pem@.len() <= MAX_INPUT,
        !spec_has_encryption_header(pem@),
    ensures
        r == spec_not_after(pem@),
{
    let certificate = X509::from_pem(pem).ok()?;
    let since = Asn1Time::from_unix(0).ok()?.diff(certificate.not_after()).ok()?;
    Some((since.days, since.secs))
}

/// `X509::from_pem`, `X509Ref::public_key` and `PKeyRef::public_key_to_der`:
/// the key that the certificate embeds.
#[verifier::external_body]
pub(crate) fn read_certificate_key(pem: &[u8]) -> (r: Option<Vec<u8>>)
    requires
        pem@.len() <= MAX_INPUT,
        !spec_has_encryption_header(pem@),
    ensures
        bytes_view(r) == spec_certificate_key(pem@),
{
    X509::from_pem(pem).ok()?.public_key().ok()?.public_key_to_der().ok()
}

/// `X509::from_pem`, `PKey::public_key_from_der` and `X509Ref::verify`:
/// whether the certificate's signature verifies under the key.
#[verifier::external_body]
pub(crate) fn signed_by(pem: &[u8], public_der: &[u8]) -> (r: Option<bool>)
    requires
        pem@.len() <= MAX_INPUT,
        !spec_has_encryption_header(pem@),
    ensures
        r == spec_signed_by(pem@, public_der@),
{
    let key = PKey::public_key_from_der(public_der).ok()?;
    X509::from_pem(pem).ok()?.verify(&key).ok()
}

/// `PKey::public_key_from_der`, `PKeyRef::ec_key`, `BigNum::from_slice`,
/// `EcdsaSig::from_private_components` and `EcdsaSigRef::verify`: whether the
/// signature is valid for `digest` under the key. The digest goes to the
/// check as it stands.
#[verifier::external_body]
pub(crate) fn ecdsa_accepts(public_der: &[u8], digest: &[u8], r: &[u8], s: &[u8]) -> (accepted:
    Option<bool>)
    requires
        digest@.len() <= MAX_INPUT,
        r@.len() <= MAX_INPUT,
        s@.len() <= MAX_INPUT,
    ensures
        accepted == spec_ecdsa_accepts(public_der@, digest@, r@, s@),
{
    let key = PKey::public_key_from_der(public_der).ok()?.ec_key().ok()?;
    let r = BigNum::from_slice(r).ok()?;
    let s = BigNum::from_slice(s).ok()?;
    EcdsaSig::from_private_components(r, s).ok()?.verify(digest, &key).ok()
}

} // verus!
