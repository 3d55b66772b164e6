//! Key material: the two roles a key can have, and fresh pairs for each.

use vstd::prelude::*;
use openssl::error::ErrorStack;
use crate::bytes::same_bytes;
use crate::decode::{
    read_pkcs8_pem,
    read_private_key_facts,
    read_public_pem,
    spec_pkcs8_pem,
    spec_private_key_facts,
    spec_public_pem,
    KeyKind,
};
use crate::error::TrustError;
use crate::ossl::{
    generate_ed25519,
    pkey_from_rsa,
    private_key_to_pem_pkcs8,
    public_key_to_pem,
    rsa_generate,
    MAX_INPUT,
};

verus! {

/// Size in bits of the key that serves TLS.
pub const TLS_KEY_BITS: u32 = 2048;

/// The role of a key, which fixes its algorithm.
#[derive(Clone, Copy, Debug, PartialEq, Eq, Structural)]
pub enum KeyAlgorithm {
    /// The key that authenticates administrators: Ed25519, for short keys
    /// and signatures that need no randomness.
    Signing,
    /// The key that serves TLS: RSA of 2048 bits, which every client takes.
    Tls,
}

impl KeyAlgorithm {
    /// Whether a key of the given algorithm and size can take this role.
    pub open spec fn spec_admits(self, facts: (KeyKind, u32)) -> bool {
        match self {
            KeyAlgorithm::Signing => facts.0 == KeyKind::Ed25519,
            KeyAlgorithm::Tls => facts.0 == KeyKind::Rsa && facts.1 == TLS_KEY_BITS,
        }
    }

    /// Tells whether a key of the given algorithm and size can take this role.
    pub fn admits(&self, kind: KeyKind, bits: u32) -> (r: bool)
        ensures
            r == self.spec_admits((kind, bits)),
    {
        match self {
            KeyAlgorithm::Signing => kind == KeyKind::Ed25519,
            KeyAlgorithm::Tls => kind == KeyKind::Rsa && bits == TLS_KEY_BITS,
        }
    }
}

/// A private key and its public half, both encoded: the private key as
/// PKCS#8 PEM, the public key as SubjectPublicKeyInfo PEM.
#[derive(Debug)]
pub struct KeyPair {
    pub algorithm: KeyAlgorithm,
    pub private_pem: Vec<u8>,
    pub public_pem: Vec<u8>,
}

/// Whether `private_pem` and `public_pem` are the two halves of one key that
/// can take the role `algorithm`: the private one is the PKCS#8 PEM of a key
/// of the role's algorithm, and the public one is the SubjectPublicKeyInfo
/// PEM of that key's public half.
pub open spec fn spec_is_pair(algorithm: KeyAlgorithm, private_pem: Seq<u8>, public_pem: Seq<u8>)
    -> bool {
    &&& private_pem.len() <= MAX_INPUT
    &&& spec_pkcs8_pem(private_pem) == Some(private_pem)
    &&& spec_public_pem(private_pem) == Some(public_pem)
    &&& spec_private_key_facts(private_pem) matches Some(facts)
    &&& algorithm.spec_admits(facts)
}

impl KeyPair {
    /// The two encodings belong together: the private one decodes to a key of
    /// the role's algorithm, and the public one is that key's public half.
    pub open spec fn wf(&self) -> bool {
        spec_is_pair(self.algorithm, self.private_pem@, self.public_pem@)
    }
}

/// Whether an optional encoding is there and is `expected`.
fn is_encoding(found: &Option<Vec<u8>>, expected: &[u8]) -> (r: bool)
    ensures
        r <==> (found matches Some(bytes) && bytes@ == expected@),
{
    match found {
        Some(bytes) => same_bytes(bytes.as_slice(), expected),
        None => false,
    }
}

/// Whether what was read from the private key `private_pem` makes it, with
/// `public_pem`, a pair for `algorithm`: encoded again it must be
/// `private_pem`, the public half read from it must be `public_pem`, and its
/// algorithm and size must fit the role.
pub fn is_pair(
    algorithm: KeyAlgorithm,
    private_pem: &[u8],
    public_pem: &[u8],
    encoded_again: &Option<Vec<u8>>,
    derived_public: &Option<Vec<u8>>,
    facts: Option<(KeyKind, u32)>,
) -> (r: bool)
    ensures
        r <==> {
            &&& encoded_again matches Some(again)
            &&& again@ == private_pem@
            &&& derived_public matches Some(derived)
            &&& derived@ == public_pem@
            &&& facts matches Some(f)
            &&& algorithm.spec_admits(f)
        },
{
    let fits = match facts {
        Some(f) => algorithm.admits(f.0, f.1),
        None => false,
    };
    fits && is_encoding(encoded_again, private_pem) && is_encoding(derived_public, public_pem)
}

/// Makes a key pair of two encodings after reading the private one back:
/// succeeds exactly when they are the two halves of one key of the role's
/// algorithm, and fails with `Crypto` otherwise.
pub fn check_key_pair(algorithm: KeyAlgorithm, private_pem: Vec<u8>, public_pem: Vec<u8>) -> (r:
    Result<KeyPair, TrustError>)
    ensures
        r is Ok <==> spec_is_pair(algorithm, private_pem@, public_pem@),
        r matches Ok(pair) ==> pair.algorithm == algorithm && pair.private_pem == private_pem
            && pair.public_pem == public_pem,
        r matches Err(e) ==> e == TrustError::Crypto,
{
    if private_pem.len() > MAX_INPUT {
        return Err(TrustError::Crypto);
    }
    let again = read_pkcs8_pem(private_pem.as_slice());
    let derived = read_public_pem(private_pem.as_slice());
    let facts = read_private_key_facts(private_pem.as_slice());
    if is_pair(algorithm, private_pem.as_slice(), public_pem.as_slice(), &again, &derived, facts) {
        Ok(KeyPair { algorithm, private_pem, public_pem })
    } else {
        Err(TrustError::Crypto)
    }
}

/// Reports a failure of the cryptographic library as `Crypto`.
pub(crate) fn or_crypto<T>(outcome: Result<T, ErrorStack>) -> (r: Result<T, TrustError>)
    ensures
        match outcome {
            Ok(value) => r == Ok::<T, TrustError>(value),
            Err(_) => r == Err::<T, TrustError>(TrustError::Crypto),
        },
{
    match outcome {
        Ok(value) => Ok(value),
        Err(_) => Err(TrustError::Crypto),
    }
}

/// Generates a fresh key for the role and encodes both halves.
///
/// The key itself comes from the cryptographic library and differs from call
/// to call. Whatever it returned, a pair that comes back has been read
/// again and found to be one; any failure is `Crypto`.
pub fn generate_key_pair(algorithm: KeyAlgorithm) -> (r: Result<KeyPair, TrustError>)
    ensures
        r matches Ok(pair) ==> pair.wf() && pair.algorithm == algorithm,
        r matches Err(e) ==> e == TrustError::Crypto,
{
    let key = match algorithm {
        KeyAlgorithm::Signing => or_crypto(generate_ed25519())?,
        KeyAlgorithm::Tls => {
            let rsa = or_crypto(rsa_generate(TLS_KEY_BITS))?;
            or_crypto(pkey_from_rsa(rsa))?
        },
    };
    let private_pem = or_crypto(private_key_to_pem_pkcs8(&key))?;
    let public_pem = or_crypto(public_key_to_pem(&key))?;
    check_key_pair(algorithm, private_pem, public_pem)
}

} // verus!
