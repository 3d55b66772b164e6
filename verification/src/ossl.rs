//! The calls into OpenSSL that make keys and certificates.
//!
//! Nothing here is proved. Each function makes one call and hands back what
//! the library returned; none of them promises anything about the value.
//! Whatever the rest of the crate claims of generated keys and issued
//! certificates it establishes by decoding them again.

use vstd::prelude::*;
use vstd::string::StringSliceAdditionalSpecFns;
use openssl::asn1::{Asn1Integer, Asn1Time};
use openssl::bn::BigNum;
use openssl::error::ErrorStack;
use openssl::hash::MessageDigest;
use openssl::pkey::{PKey, Private};
use openssl::rsa::Rsa;
use openssl::x509::{X509, X509Builder, X509Name, X509NameBuilder};

verus! {

/// The longest input that OpenSSL's readers take: they hold lengths in a C
/// `int` and stop the process on anything longer.
pub const MAX_INPUT: usize = 0x7fff_ffff;

/// `openssl::error::ErrorStack`, the errors that a failed call left behind.
#[verifier::external_type_specification]
#[verifier::external_body]
pub struct ExErrorStack(ErrorStack);

/// `openssl::pkey::Private`, the tag of a key that has its private half.
#[verifier::external_type_specification]
#[verifier::external_body]
pub struct ExPrivate(Private);

/// `openssl::pkey::PKey`, a key of any algorithm.
#[verifier::external_type_specification]
#[verifier::external_body]
#[verifier::reject_recursive_types(T)]
pub struct ExPKey<T>(PKey<T>);

/// `openssl::rsa::Rsa`, an RSA key.
#[verifier::external_type_specification]
#[verifier::external_body]
#[verifier::reject_recursive_types(T)]
pub struct ExRsa<T>(Rsa<T>);

/// `openssl::x509::X509NameBuilder`, a distinguished name under construction.
#[verifier::external_type_specification]
#[verifier::external_body]
pub struct ExX509NameBuilder(X509NameBuilder);

/// `openssl::x509::X509Name`, a distinguished name.
#[verifier::external_type_specification]
#[verifier::external_body]
pub struct ExX509Name(X509Name);

/// `openssl::x509::X509Builder`, a certificate under construction.
#[verifier::external_type_specification]
#[verifier::external_body]
pub struct ExX509Builder(X509Builder);

/// `openssl::x509::X509`, a certificate.
#[verifier::external_type_specification]
#[verifier::external_body]
pub struct ExX509(X509);

/// `openssl::asn1::Asn1Time`, a point in time as certificates hold it.
#[verifier::external_type_specification]
#[verifier::external_body]
pub struct ExAsn1Time(Asn1Time);

/// `openssl::bn::BigNum`, an integer of any size.
#[verifier::external_type_specification]
#[verifier::external_body]
pub struct ExBigNum(BigNum);

/// `openssl::asn1::Asn1Integer`, an integer as certificates hold it.
#[verifier::external_type_specification]
#[verifier::external_body]
pub struct ExAsn1Integer(Asn1Integer);

/// `openssl::hash::MessageDigest`, the choice of a digest algorithm.
#[verifier::external_type_specification]
#[verifier::external_body]
pub struct ExMessageDigest(MessageDigest);

/// The longest validity in days that `Asn1Time::days_from_now` takes where a
/// C `long` has 32 bits: it counts the seconds in one.
pub const MAX_DAYS: u32 = 24855;

/// The largest RSA modulus, in bits, that OpenSSL makes keys for.
pub const MAX_RSA_BITS: u32 = 16384;

/// `PKey::generate_ed25519`: a fresh Ed25519 key, or the library's error.
#[verifier::external_body]
pub(crate) fn generate_ed25519() -> (r: Result<PKey<Private>, ErrorStack>) {
    PKey::generate_ed25519()
}

/// `Rsa::generate`: a fresh RSA key of `bits` bits with public exponent
/// 65537, or the library's error. Sizes past the largest that OpenSSL makes
/// keys for are left out.
#[verifier::external_body]
pub(crate) fn rsa_generate(bits: u32) -> (r: Result<Rsa<Private>, ErrorStack>)
    requires
        bits <= MAX_RSA_BITS,
{
    Rsa::generate(bits)
}

/// `PKey::from_rsa`: the RSA key as a key of any algorithm.
#[verifier::external_body]
pub(crate) fn pkey_from_rsa(rsa: Rsa<Private>) -> (r: Result<PKey<Private>, ErrorStack>) {
    PKey::from_rsa(rsa)
}

/// `PKeyRef::private_key_to_pem_pkcs8`: the key as unencrypted PKCS#8 PEM.
#[verifier::external_body]
pub(crate) fn private_key_to_pem_pkcs8(key: &PKey<Private>) -> (r: Result<Vec<u8>, ErrorStack>) {
    key.private_key_to_pem_pkcs8()
}

/// `PKeyRef::public_key_to_pem`: the key's public half as
/// SubjectPublicKeyInfo PEM.
#[verifier::external_body]
pub(crate) fn public_key_to_pem(key: &PKey<Private>) -> (r: Result<Vec<u8>, ErrorStack>) {
    key.public_key_to_pem()
}

/// `PKey::private_key_from_pem_passphrase`: the private key that `pem`
/// encodes, read with the empty passphrase: a key that is encrypted under
/// another fails to decode, and nobody is asked at the terminal. The call
/// stops the process on input longer than a C `int` can count.
#[verifier::external_body]
pub(crate) fn private_key_from_pem(pem: &[u8]) -> (r: Result<PKey<Private>, ErrorStack>)
    requires
        pem@.len() <= MAX_INPUT,
{
    PKey::private_key_from_pem_passphrase(pem, &[])
}

/// `X509NameBuilder::new`: an empty name.
#[verifier::external_body]
pub(crate) fn name_builder_new() -> (r: Result<X509NameBuilder, ErrorStack>) {
    X509NameBuilder::new()
}

/// `X509NameBuilder::append_entry_by_text`: adds the attribute `field` with
/// `value` to the name. The call stops the process when `field` holds a NUL
/// character or `value` is longer than a C `int` can count.
#[verifier::external_body]
pub(crate) fn name_append_entry_by_text(
    builder: &mut X509NameBuilder,
    field: &str,
    value: &str,
) -> (r: Result<(), ErrorStack>)
    requires
        !field@.contains('\0'),
        value.spec_bytes().len() <= MAX_INPUT,
{
    builder.append_entry_by_text(field, value)
}

/// `X509NameBuilder::build`: the finished name.
#[verifier::external_body]
pub(crate) fn name_build(builder: X509NameBuilder) -> (r: X509Name) {
    builder.build()
}

/// `X509::builder`: an empty certificate.
#[verifier::external_body]
pub(crate) fn x509_builder() -> (r: Result<X509Builder, ErrorStack>) {
    X509::builder()
}

/// `X509Builder::set_version`: sets the version field, which counts from 0.
#[verifier::external_body]
pub(crate) fn set_version(builder: &mut X509Builder, version: i32) -> (r: Result<(), ErrorStack>) {
    builder.set_version(version)
}

/// `X509Builder::set_subject_name`: sets the subject.
#[verifier::external_body]
pub(crate) fn set_subject_name(builder: &mut X509Builder, name: &X509Name) -> (r: Result<
    (),
    ErrorStack,
>) {
    builder.set_subject_name(name)
}

/// `X509Builder::set_issuer_name`: sets the issuer.
#[verifier::external_body]
pub(crate) fn set_issuer_name(builder: &mut X509Builder, name: &X509Name) -> (r: Result<
    (),
    ErrorStack,
>) {
    builder.set_issuer_name(name)
}

/// `Asn1Time::from_unix`: the time `seconds` after the Unix epoch.
#[verifier::external_body]
pub(crate) fn asn1_time_from_unix(seconds: i64) -> (r: Result<Asn1Time, ErrorStack>) {
    Asn1Time::from_unix(seconds)
}

/// `Asn1Time::days_from_now`: the time `days` whole days after the moment
/// of the call, as the machine's clock tells it. The call counts the seconds
/// in a C `long`, so that more days than fit there are left out.
#[verifier::external_body]
pub(crate) fn asn1_time_days_from_now(days: u32) -> (r: Result<Asn1Time, ErrorStack>)
    requires
        days <= MAX_DAYS,
{
    Asn1Time::days_from_now(days)
}

/// `Asn1TimeRef::diff`: how far `to` lies after `from`, in whole days and
/// remaining seconds.
#[verifier::external_body]
pub(crate) fn asn1_time_diff(from: &Asn1Time, to: &Asn1Time) -> (r: Result<
    (i32, i32),
    ErrorStack,
>) {
    from.diff(to).map(|between| (between.days, between.secs))
}

/// `X509Builder::set_not_before`: sets the start of the validity window.
#[verifier::external_body]
pub(crate) fn set_not_before(builder: &mut X509Builder, time: &Asn1Time) -> (r: Result<
    (),
    ErrorStack,
>) {
    builder.set_not_before(time)
}

/// `X509Builder::set_not_after`: sets the end of the validity window.
#[verifier::external_body]
pub(crate) fn set_not_after(builder: &mut X509Builder, time: &Asn1Time) -> (r: Result<
    (),
    ErrorStack,
>) {
    builder.set_not_after(time)
}

/// `X509Builder::set_pubkey`: embeds the public half of `key`.
#[verifier::external_body]
pub(crate) fn set_pubkey(builder: &mut X509Builder, key: &PKey<Private>) -> (r: Result<
    (),
    ErrorStack,
>) {
    builder.set_pubkey(key)
}

/// `BigNum::from_u32`: the integer `n`.
#[verifier::external_body]
pub(crate) fn bn_from_u32(n: u32) -> (r: Result<BigNum, ErrorStack>) {
    BigNum::from_u32(n)
}

/// `Asn1Integer::from_bn`: the integer in the form certificates hold.
#[verifier::external_body]
pub(crate) fn asn1_integer_from_bn(n: &BigNum) -> (r: Result<Asn1Integer, ErrorStack>) {
    Asn1Integer::from_bn(n)
}

/// `X509Builder::set_serial_number`: sets the serial number.
#[verifier::external_body]
pub(crate) fn set_serial_number(builder: &mut X509Builder, serial: &Asn1Integer) -> (r: Result<
    (),
    ErrorStack,
>) {
    builder.set_serial_number(serial)
}

/// `MessageDigest::sha256`: the choice of SHA-256.
#[verifier::external_body]
pub(crate) fn sha256() -> (r: MessageDigest) {
    MessageDigest::sha256()
}

/// `X509Builder::sign`: signs the certificate with `key` over a digest of the
/// chosen algorithm.
#[verifier::external_body]
pub(crate) fn sign(builder: &mut X509Builder, key: &PKey<Private>, digest: MessageDigest) -> (r:
    Result<(), ErrorStack>) {
    builder.sign(key, digest)
}

/// `X509Builder::build`: the finished certificate.
#[verifier::external_body]
pub(crate) fn x509_build(builder: X509Builder) -> (r: X509) {
    builder.build()
}

/// `X509Ref::to_pem`: the certificate as PEM.
#[verifier::external_body]
pub(crate) fn x509_to_pem(certificate: &X509) -> (r: Result<Vec<u8>, ErrorStack>) {
    certificate.to_pem()
}

} // verus!
