//! Issuance of the self-signed certificate that serves HTTPS.
//!
//! The certificate is built by the cryptographic library, of which nothing
//! is assumed while it builds. What is promised of an issued certificate is
//! established afterwards: the encoded certificate is decoded again, and
//! every field is held against what was asked for.

use vstd::prelude::*;
use vstd::string::{StringExecFns, StringSliceAdditionalSpecFns};
use crate::bytes::{copy_bytes, same_bytes, same_text};
use crate::decode::{
    has_encryption_header,
    read_certificate_key,
    read_certificate_pem,
    read_issuer,
    read_not_after,
    read_not_before,
    read_public_der,
    read_serial,
    read_signature_digest,
    read_subject,
    read_subject_common_name,
    read_subject_entries,
    read_version,
    signed_by,
    spec_certificate_key,
    spec_certificate_pem,
    spec_has_encryption_header,
    spec_issuer,
    spec_not_after,
    spec_not_before,
    spec_public_der,
    spec_serial,
    spec_signature_digest,
    spec_signed_by,
    spec_subject,
    spec_subject_common_name,
    spec_subject_entries,
    spec_version,
    DigestKind,
};
use crate::error::TrustError;
use crate::keys::or_crypto;
use crate::ossl::{
    asn1_integer_from_bn,
    asn1_time_days_from_now,
    asn1_time_diff,
    asn1_time_from_unix,
    bn_from_u32,
    name_append_entry_by_text,
    name_build,
    name_builder_new,
    private_key_from_pem,
    set_issuer_name,
    set_not_after,
    set_not_before,
    set_pubkey,
    set_serial_number,
    set_subject_name,
    set_version,
    sha256,
    sign,
    x509_build,
    x509_builder,
    x509_to_pem,
    MAX_INPUT,
};

verus! {

/// The validity, in days, of a certificate issued without a stated period.
pub const DEFAULT_VALIDITY_DAYS: u32 = 365;

/// The serial number that every issued certificate carries.
///
/// A serial number is there to tell the certificates of one issuer apart,
/// and this one cannot: a certificate issued again under the same name, once
/// the first was deleted, carries the same number.
pub const SERIAL_NUMBER: u32 = 1;

/// The version field of an X.509 v3 certificate: versions count from 0.
pub const VERSION_3: i32 = 2;

/// Seconds in a day.
pub const SECONDS_PER_DAY: i64 = 86400;

/// The common name of a certificate issued without a stated subject.
pub open spec fn spec_default_subject() -> Seq<char> {
    "localhost"@
}

/// The common name of a certificate issued without a stated subject.
pub fn default_subject() -> (name: String)
    ensures
        name@ == spec_default_subject(),
{
    String::from_str("localhost")
}

/// The seconds since the Unix epoch that whole days and remaining seconds
/// come to.
pub open spec fn spec_seconds(since: (i32, i32)) -> int {
    since.0 * SECONDS_PER_DAY + since.1
}

/// The length in seconds of a validity of `days` days.
pub open spec fn spec_period(days: u32) -> int {
    days * SECONDS_PER_DAY
}

/// The serial number as the decoder reports it.
pub open spec fn spec_serial_bytes() -> Seq<u8> {
    seq![1u8]
}

/// Whether the encoded certificate `pem` is the self-signed certificate of
/// the subject `subject` for the window from `not_before` to `not_after`,
/// made for and signed by the key whose public half is `public_key`: an
/// X.509 v3 certificate with the fixed serial number, whose subject holds the
/// common name and nothing else, whose issuer is its subject, and whose
/// signature is over a SHA-256 digest and verifies under the key it embeds.
/// Its encoding announces no encryption, and is the encoding of that
/// certificate and nothing more: decoded and encoded again, it comes out as
/// it is.
pub open spec fn spec_conforms(
    pem: Seq<u8>,
    subject: Seq<char>,
    not_before: i64,
    not_after: i64,
    public_key: Seq<u8>,
) -> bool {
    &&& pem.len() <= MAX_INPUT
    &&& !spec_has_encryption_header(pem)
    &&& spec_certificate_pem(pem) == Some(pem)
    &&& spec_version(pem) == Some(VERSION_3)
    &&& spec_serial(pem) == Some(spec_serial_bytes())
    &&& spec_subject_entries(pem) == Some(1usize)
    &&& spec_subject_common_name(pem) == Some(subject)
    &&& spec_subject(pem) is Some
    &&& spec_issuer(pem) == spec_subject(pem)
    &&& spec_not_before(pem) matches Some(start)
    &&& spec_seconds(start) == not_before
    &&& spec_not_after(pem) matches Some(end)
    &&& spec_seconds(end) == not_after
    &&& spec_certificate_key(pem) == Some(public_key)
    &&& spec_signature_digest(pem) == Some(DigestKind::Sha256)
    &&& spec_signed_by(pem, public_key) == Some(true)
}

/// An issued certificate: its PEM encoding, and beside it the fields that
/// were read back out of that encoding.
#[derive(Debug)]
pub struct Certificate {
    /// The certificate as PEM; this is what is written to the trust store.
    pub pem: Vec<u8>,
    /// The common name of subject and issuer, which are the same name.
    pub subject: String,
    /// Start of the validity window, in seconds since the Unix epoch.
    pub not_before: i64,
    /// End of the validity window, in seconds since the Unix epoch.
    pub not_after: i64,
    /// The embedded public key, as SubjectPublicKeyInfo DER.
    pub public_key: Vec<u8>,
}

impl Certificate {
    /// The fields beside the encoding are what the encoding decodes to: an
    /// X.509 v3 certificate with the fixed serial number, whose issuer is its
    /// subject, and whose signature verifies under the key it embeds.
    pub open spec fn wf(&self) -> bool {
        spec_conforms(self.pem@, self.subject@, self.not_before, self.not_after, self.public_key@)
    }
}

/// Joins whole days and remaining seconds into seconds.
fn seconds(since: (i32, i32)) -> (r: i64)
    ensures
        r == spec_seconds(since),
{
    since.0 as i64 * SECONDS_PER_DAY + since.1 as i64
}

/// Whether an optional byte string is there and holds `expected`.
fn holds_bytes(found: &Option<Vec<u8>>, expected: &[u8]) -> (r: bool)
    ensures
        r <==> (found matches Some(bytes) && bytes@ == expected@),
{
    match found {
        Some(bytes) => same_bytes(bytes.as_slice(), expected),
        None => false,
    }
}

/// Whether an optional time is there and is `expected` seconds after the
/// Unix epoch.
fn holds_time(found: Option<(i32, i32)>, expected: i64) -> (r: bool)
    ensures
        r <==> (found matches Some(since) && spec_seconds(since) == expected),
{
    match found {
        Some(since) => seconds(since) == expected,
        None => false,
    }
}

/// Whether subject and issuer are both there and are the same name.
fn same_names(subject: &Option<Vec<u8>>, issuer: &Option<Vec<u8>>) -> (r: bool)
    ensures
        r <==> (subject matches Some(name) && issuer matches Some(other) && name@ == other@),
{
    match subject {
        Some(name) => holds_bytes(issuer, name.as_slice()),
        None => false,
    }
}

/// Decodes the encoded certificate `pem` and holds it against what was asked
/// for. Succeeds exactly when it is the self-signed certificate of
/// `subject` for the window from `not_before` to `not_after`, made for and
/// signed by the key whose public half is `public_key`; fails with `Crypto`
/// otherwise.
pub fn inspect(
    pem: Vec<u8>,
    subject: &str,
    not_before: i64,
    not_after: i64,
    public_key: &[u8],
) -> (r: Result<Certificate, TrustError>)
    ensures
        r is Ok <==> spec_conforms(pem@, subject@, not_before, not_after, public_key@),
        r matches Ok(certificate) ==> {
            &&& certificate.pem == pem
            &&& certificate.subject@ == subject@
            &&& certificate.not_before == not_before
            &&& certificate.not_after == not_after
            &&& certificate.public_key@ == public_key@
        },
        r matches Err(e) ==> e == TrustError::Crypto,
{
    if pem.len() > MAX_INPUT || has_encryption_header(pem.as_slice()) {
        return Err(TrustError::Crypto);
    }
    let encoded = pem.as_slice();
    let serial: [u8; 1] = [1u8];
    assert(serial@ =~= spec_serial_bytes());
    let frame_fits = holds_bytes(&read_certificate_pem(encoded), encoded);
    let version_fits = match read_version(encoded) {
        Some(version) => version == VERSION_3,
        None => false,
    };
    let serial_fits = holds_bytes(&read_serial(encoded), serial.as_slice());
    let subject_fits = match read_subject_common_name(encoded) {
        Some(name) => same_text(name.as_str(), subject),
        None => false,
    };
    let subject_is_alone = match read_subject_entries(encoded) {
        Some(count) => count == 1,
        None => false,
    };
    let digest_fits = match read_signature_digest(encoded) {
        Some(digest) => digest == DigestKind::Sha256,
        None => false,
    };
    let names_fit = same_names(&read_subject(encoded), &read_issuer(encoded));
    let start_fits = holds_time(read_not_before(encoded), not_before);
    let end_fits = holds_time(read_not_after(encoded), not_after);
    let key_fits = holds_bytes(&read_certificate_key(encoded), public_key);
    let signature_fits = match signed_by(encoded, public_key) {
        Some(verified) => verified,
        None => false,
    };
    if frame_fits && version_fits && serial_fits && subject_fits && subject_is_alone && names_fit
        && start_fits && end_fits && key_fits && digest_fits && signature_fits {
        Ok(
            Certificate {
                pem,
                subject: subject.to_owned(),
                not_before,
                not_after,
                public_key: copy_bytes(public_key),
            },
        )
    } else {
        Err(TrustError::Crypto)
    }
}

/// Reads the clock: the seconds since the Unix epoch, or `Crypto` where the
/// cryptographic library cannot tell the time.
fn unix_now() -> (r: Result<i64, TrustError>)
    ensures
        r matches Err(e) ==> e == TrustError::Crypto,
{
    let epoch = or_crypto(asn1_time_from_unix(0))?;
    let present = or_crypto(asn1_time_days_from_now(0))?;
    let since = or_crypto(asn1_time_diff(&epoch, &present))?;
    Ok(seconds(since))
}

/// Issues, as of now, a self-signed X.509 v3 certificate for the PEM-encoded
/// private key `private_key`: the certificate that `issue_self_signed_at`
/// issues at the time that the clock tells.
///
/// The validity window begins at the moment of issuance and lasts exactly
/// `validity_days` whole days.
pub fn issue_self_signed(private_key: &[u8], subject_cn: &str, validity_days: u32) -> (r: Result<
    Certificate,
    TrustError,
>)
    ensures
        r matches Ok(certificate) ==> {
            &&& certificate.wf()
            &&& certificate.subject@ == subject_cn@
            &&& certificate.not_after - certificate.not_before == spec_period(validity_days)
            &&& spec_public_der(private_key@) == Some(certificate.public_key@)
        },
        r matches Err(e) ==> e == TrustError::Parse || e == TrustError::Crypto,
        private_key@.len() > MAX_INPUT || spec_public_der(private_key@) is None ==> r is Err,
        subject_cn.spec_bytes().len() > MAX_INPUT ==> r is Err,
{
    let now = unix_now()?;
    issue_self_signed_at(private_key, subject_cn, validity_days, now)
}

/// Issues, at the time `now`, a self-signed X.509 v3 certificate for the
/// PEM-encoded private key `private_key`.
///
/// Subject and issuer are the one name that holds the common name
/// `subject_cn` and nothing else. The certificate is valid from `now`, in
/// seconds since the Unix epoch, for `validity_days` whole days; it embeds
/// the public half of the key, carries the fixed serial number and is signed
/// with the key over a SHA-256 digest.
///
/// A key that does not decode is refused with `Parse`. A subject of more
/// bytes than a C `int` can count, and a window that would end past the
/// largest time, are refused too, with `Crypto` where the key decodes. Past
/// that point the cryptographic library decides whether a certificate comes
/// back; one that does has been decoded and found to be what was asked for,
/// and any failure is `Crypto`.
pub fn issue_self_signed_at(
    private_key: &[u8],
    subject_cn: &str,
    validity_days: u32,
    now: i64,
) -> (r: Result<Certificate, TrustError>)
    ensures
        private_key@.len() > MAX_INPUT || spec_public_der(private_key@) is None ==> r == Err::<
            Certificate,
            TrustError,
        >(TrustError::Parse),
        r matches Ok(certificate) ==> {
            &&& certificate.wf()
            &&& certificate.subject@ == subject_cn@
            &&& certificate.not_before == now
            &&& certificate.not_before <= now <= certificate.not_after
            &&& certificate.not_after - certificate.not_before == spec_period(validity_days)
            &&& spec_public_der(private_key@) == Some(certificate.public_key@)
        },
        r matches Err(e) ==> e == TrustError::Parse || e == TrustError::Crypto,
        r == Err::<Certificate, TrustError>(TrustError::Parse) ==> private_key@.len() > MAX_INPUT
            || spec_public_der(private_key@) is None,
        subject_cn.spec_bytes().len() > MAX_INPUT || now + spec_period(validity_days) > i64::MAX
            ==> r is Err,
{
    if private_key.len() > MAX_INPUT {
        return Err(TrustError::Parse);
    }
    let public_key = match read_public_der(private_key) {
        Some(public_key) => public_key,
        None => {
            return Err(TrustError::Parse);
        },
    };
    let period: i64 = validity_days as i64 * SECONDS_PER_DAY;
    if subject_cn.as_bytes().len() > MAX_INPUT || now > i64::MAX - period {
        return Err(TrustError::Crypto);
    }
    let not_after: i64 = now + period;
    let key = or_crypto(private_key_from_pem(private_key))?;

    let mut name_builder = or_crypto(name_builder_new())?;
    proof {
        reveal_strlit("CN");
    }
    or_crypto(name_append_entry_by_text(&mut name_builder, "CN", subject_cn))?;
    let name = name_build(name_builder);

    let mut builder = or_crypto(x509_builder())?;
    or_crypto(set_version(&mut builder, VERSION_3))?;
    or_crypto(set_subject_name(&mut builder, &name))?;
    or_crypto(set_issuer_name(&mut builder, &name))?;
    let start = or_crypto(asn1_time_from_unix(now))?;
    or_crypto(set_not_before(&mut builder, &start))?;
    let end = or_crypto(asn1_time_from_unix(not_after))?;
    or_crypto(set_not_after(&mut builder, &end))?;
    or_crypto(set_pubkey(&mut builder, &key))?;
    let serial = or_crypto(bn_from_u32(SERIAL_NUMBER))?;
    let serial = or_crypto(asn1_integer_from_bn(&serial))?;
    or_crypto(set_serial_number(&mut builder, &serial))?;
    or_crypto(sign(&mut builder, &key, sha256()))?;
    let certificate = x509_build(builder);

    let pem = or_crypto(x509_to_pem(&certificate))?;
    inspect(pem, subject_cn, now, not_after, public_key.as_slice())
}

} // verus!
