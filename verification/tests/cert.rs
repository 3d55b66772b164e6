use openssl::asn1::Asn1Time;
use openssl::bn::BigNum;
use openssl::hash::MessageDigest;
use openssl::nid::Nid;
use openssl::pkey::PKey;
use openssl::base64::{decode_block, encode_block};
use openssl::pkcs5::bytes_to_key;
use openssl::symm::{encrypt, Cipher};
use trustee::decode::has_encryption_header;
use openssl::x509::{X509Builder, X509NameBuilder, X509};
use trustee::cert::{
    default_subject, inspect, issue_self_signed, issue_self_signed_at, DEFAULT_VALIDITY_DAYS,
};
use trustee::error::TrustError;
use trustee::keys::{generate_key_pair, KeyAlgorithm};

const NOW: i64 = 1_700_000_000;

fn common_names(name: &openssl::x509::X509NameRef) -> Vec<String> {
    name.entries_by_nid(Nid::COMMONNAME).map(|e| e.data().to_string().unwrap()).collect()
}

#[test]
fn issued_certificate_names_localhost_and_is_self_signed() {
    let key = generate_key_pair(KeyAlgorithm::Tls).unwrap();
    let certificate = issue_self_signed_at(&key.private_pem, "localhost", 365, NOW).unwrap();
    assert_eq!(certificate.subject, "localhost");

    let decoded = X509::from_pem(&certificate.pem).unwrap();
    assert_eq!(common_names(decoded.subject_name()), vec!["localhost".to_string()]);
    assert_eq!(common_names(decoded.issuer_name()), vec!["localhost".to_string()]);
    assert_eq!(decoded.subject_name().entries().count(), 1);
    assert_eq!(
        decoded.subject_name().to_der().unwrap(),
        decoded.issuer_name().to_der().unwrap()
    );
    assert_eq!(decoded.version(), 2);
    assert_eq!(decoded.serial_number().to_bn().unwrap().to_vec(), vec![1u8]);
}

#[test]
fn issued_certificate_embeds_and_verifies_under_the_signing_key() {
    let key = generate_key_pair(KeyAlgorithm::Tls).unwrap();
    let certificate = issue_self_signed_at(&key.private_pem, "localhost", 365, NOW).unwrap();
    let decoded = X509::from_pem(&certificate.pem).unwrap();
    let public = PKey::public_key_from_pem(&key.public_pem).unwrap();
    assert!(decoded.public_key().unwrap().public_eq(&public));
    assert!(decoded.verify(&public).unwrap());
    assert_eq!(certificate.public_key, public.public_key_to_der().unwrap());
    assert_eq!(decoded.signature_algorithm().object().nid(), Nid::SHA256WITHRSAENCRYPTION);
}

#[test]
fn validity_window_starts_now_and_lasts_the_requested_days() {
    let key = generate_key_pair(KeyAlgorithm::Tls).unwrap();
    let certificate = issue_self_signed_at(&key.private_pem, "localhost", 365, NOW).unwrap();
    assert_eq!(certificate.not_before, NOW);
    assert_eq!(certificate.not_after, NOW + 365 * 86400);
    assert_eq!(certificate.not_after - certificate.not_before, 31_536_000);

    let decoded = X509::from_pem(&certificate.pem).unwrap();
    let window = decoded.not_before().diff(decoded.not_after()).unwrap();
    assert_eq!((window.days, window.secs), (365, 0));
    let start = Asn1Time::from_unix(NOW).unwrap();
    assert!(decoded.not_before() == &*start);
}

#[test]
fn validity_of_one_day_is_86400_seconds() {
    let key = generate_key_pair(KeyAlgorithm::Signing).unwrap();
    let tls = generate_key_pair(KeyAlgorithm::Tls).unwrap();
    let certificate = issue_self_signed_at(&tls.private_pem, "example.org", 1, 0).unwrap();
    assert_eq!(certificate.subject, "example.org");
    assert_eq!(certificate.not_before, 0);
    assert_eq!(certificate.not_after, 86400);
    assert!(!key.private_pem.is_empty());
}

#[test]
fn defaults_are_localhost_for_365_days() {
    assert_eq!(default_subject(), "localhost");
    assert_eq!(DEFAULT_VALIDITY_DAYS, 365);
}

#[test]
fn key_that_does_not_decode_is_a_parse_error() {
    let outcome = issue_self_signed_at(b"not a key", "localhost", 365, NOW);
    assert_eq!(outcome.unwrap_err(), TrustError::Parse);
    let outcome = issue_self_signed_at(b"", "localhost", 365, NOW);
    assert_eq!(outcome.unwrap_err(), TrustError::Parse);
}

#[test]
fn window_that_overflows_is_a_crypto_error() {
    let key = generate_key_pair(KeyAlgorithm::Tls).unwrap();
    let outcome = issue_self_signed_at(&key.private_pem, "localhost", 365, i64::MAX);
    assert_eq!(outcome.unwrap_err(), TrustError::Crypto);
}

#[test]
fn inspection_refuses_a_certificate_that_is_not_what_was_asked() {
    let key = generate_key_pair(KeyAlgorithm::Tls).unwrap();
    let other = generate_key_pair(KeyAlgorithm::Tls).unwrap();
    let certificate = issue_self_signed_at(&key.private_pem, "localhost", 365, NOW).unwrap();
    let end = NOW + 365 * 86400;
    let public = certificate.public_key.clone();
    let other_public = PKey::public_key_from_pem(&other.public_pem)
        .unwrap()
        .public_key_to_der()
        .unwrap();

    assert!(inspect(certificate.pem.clone(), "localhost", NOW, end, &public).is_ok());
    let wrong_name = inspect(certificate.pem.clone(), "elsewhere", NOW, end, &public);
    assert_eq!(wrong_name.unwrap_err(), TrustError::Crypto);
    let wrong_start = inspect(certificate.pem.clone(), "localhost", NOW + 1, end, &public);
    assert_eq!(wrong_start.unwrap_err(), TrustError::Crypto);
    let wrong_end = inspect(certificate.pem.clone(), "localhost", NOW, end - 1, &public);
    assert_eq!(wrong_end.unwrap_err(), TrustError::Crypto);
    let wrong_key = inspect(certificate.pem.clone(), "localhost", NOW, end, &other_public);
    assert_eq!(wrong_key.unwrap_err(), TrustError::Crypto);
    let garbage = inspect(b"garbage".to_vec(), "localhost", NOW, end, &public);
    assert_eq!(garbage.unwrap_err(), TrustError::Crypto);
}

#[test]
fn certificate_issued_now_names_localhost_and_is_self_signed() {
    let key = generate_key_pair(KeyAlgorithm::Tls).unwrap();
    let certificate = issue_self_signed(&key.private_pem, "localhost", 365).unwrap();
    assert_eq!(certificate.subject, "localhost");
    let decoded = X509::from_pem(&certificate.pem).unwrap();
    assert_eq!(common_names(decoded.subject_name()), vec!["localhost".to_string()]);
    assert_eq!(
        decoded.subject_name().to_der().unwrap(),
        decoded.issuer_name().to_der().unwrap()
    );
    let public = PKey::public_key_from_pem(&key.public_pem).unwrap();
    assert!(decoded.verify(&public).unwrap());
}

#[test]
fn certificate_issued_now_is_valid_now_for_exactly_the_requested_days() {
    let key = generate_key_pair(KeyAlgorithm::Tls).unwrap();
    let before = Asn1Time::days_from_now(0).unwrap();
    let certificate = issue_self_signed(&key.private_pem, "localhost", 365).unwrap();
    let after = Asn1Time::days_from_now(0).unwrap();
    assert_eq!(certificate.not_after - certificate.not_before, 365 * 86400);

    let decoded = X509::from_pem(&certificate.pem).unwrap();
    assert!(decoded.not_before() >= &*before);
    assert!(decoded.not_before() <= &*after);
    assert!(decoded.not_after() >= &*after);
    let window = decoded.not_before().diff(decoded.not_after()).unwrap();
    assert_eq!((window.days, window.secs), (365, 0));
}

#[test]
fn certificate_issued_now_for_a_corrupt_key_is_a_parse_error() {
    let outcome = issue_self_signed(b"corrupt", "localhost", 365);
    assert_eq!(outcome.unwrap_err(), TrustError::Parse);
}

struct Forged<'a> {
    organisation: Option<&'a str>,
    digest: MessageDigest,
    subject: &'a str,
    issuer: &'a str,
    version: i32,
    serial: u32,
    embedded: &'a [u8],
    signer: &'a [u8],
}

fn forge(parts: Forged) -> Vec<u8> {
    let name_of = |cn: &str| {
        let mut name = X509NameBuilder::new().unwrap();
        if let Some(organisation) = parts.organisation {
            name.append_entry_by_text("O", organisation).unwrap();
        }
        name.append_entry_by_text("CN", cn).unwrap();
        name.build()
    };
    let embedded = PKey::private_key_from_pem(parts.embedded).unwrap();
    let signer = PKey::private_key_from_pem(parts.signer).unwrap();
    let mut builder = X509Builder::new().unwrap();
    builder.set_version(parts.version).unwrap();
    builder.set_subject_name(&name_of(parts.subject)).unwrap();
    builder.set_issuer_name(&name_of(parts.issuer)).unwrap();
    builder.set_not_before(&Asn1Time::from_unix(NOW).unwrap()).unwrap();
    builder.set_not_after(&Asn1Time::from_unix(NOW + 365 * 86400).unwrap()).unwrap();
    builder.set_pubkey(&embedded).unwrap();
    let serial = BigNum::from_u32(parts.serial).unwrap().to_asn1_integer().unwrap();
    builder.set_serial_number(&serial).unwrap();
    builder.sign(&signer, parts.digest).unwrap();
    builder.build().to_pem().unwrap()
}

fn public_der(private_pem: &[u8]) -> Vec<u8> {
    PKey::private_key_from_pem(private_pem).unwrap().public_key_to_der().unwrap()
}

#[test]
fn inspection_accepts_a_certificate_built_like_an_issued_one() {
    let key = generate_key_pair(KeyAlgorithm::Tls).unwrap().private_pem;
    let pem = forge(Forged {
        organisation: None,
        digest: MessageDigest::sha256(),
        subject: "localhost",
        issuer: "localhost",
        version: 2,
        serial: 1,
        embedded: &key,
        signer: &key,
    });
    let certificate = inspect(pem.clone(), "localhost", NOW, NOW + 365 * 86400, &public_der(&key));
    let certificate = certificate.unwrap();
    assert_eq!(certificate.pem, pem);
    assert_eq!(certificate.subject, "localhost");
    assert_eq!(certificate.not_before, NOW);
    assert_eq!(certificate.not_after, NOW + 365 * 86400);
    assert_eq!(certificate.public_key, public_der(&key));
}

#[test]
fn inspection_refuses_an_issuer_that_is_not_the_subject() {
    let key = generate_key_pair(KeyAlgorithm::Tls).unwrap().private_pem;
    let pem = forge(Forged {
        organisation: None,
        digest: MessageDigest::sha256(),
        subject: "localhost",
        issuer: "someone else",
        version: 2,
        serial: 1,
        embedded: &key,
        signer: &key,
    });
    let outcome = inspect(pem, "localhost", NOW, NOW + 365 * 86400, &public_der(&key));
    assert_eq!(outcome.unwrap_err(), TrustError::Crypto);
}

#[test]
fn inspection_refuses_another_serial_number_or_version() {
    let key = generate_key_pair(KeyAlgorithm::Tls).unwrap().private_pem;
    let pem = forge(Forged {
        organisation: None,
        digest: MessageDigest::sha256(),
        subject: "localhost",
        issuer: "localhost",
        version: 2,
        serial: 2,
        embedded: &key,
        signer: &key,
    });
    let outcome = inspect(pem, "localhost", NOW, NOW + 365 * 86400, &public_der(&key));
    assert_eq!(outcome.unwrap_err(), TrustError::Crypto);
    let pem = forge(Forged {
        organisation: None,
        digest: MessageDigest::sha256(),
        subject: "localhost",
        issuer: "localhost",
        version: 0,
        serial: 1,
        embedded: &key,
        signer: &key,
    });
    let outcome = inspect(pem, "localhost", NOW, NOW + 365 * 86400, &public_der(&key));
    assert_eq!(outcome.unwrap_err(), TrustError::Crypto);
}

#[test]
fn inspection_refuses_a_certificate_signed_by_another_key() {
    let key = generate_key_pair(KeyAlgorithm::Tls).unwrap().private_pem;
    let other = generate_key_pair(KeyAlgorithm::Tls).unwrap().private_pem;
    let pem = forge(Forged {
        organisation: None,
        digest: MessageDigest::sha256(),
        subject: "localhost",
        issuer: "localhost",
        version: 2,
        serial: 1,
        embedded: &key,
        signer: &other,
    });
    let outcome = inspect(pem, "localhost", NOW, NOW + 365 * 86400, &public_der(&key));
    assert_eq!(outcome.unwrap_err(), TrustError::Crypto);
}

#[test]
fn inspection_refuses_a_subject_with_more_than_the_common_name() {
    let key = generate_key_pair(KeyAlgorithm::Tls).unwrap().private_pem;
    let pem = forge(Forged {
        organisation: Some("an organisation"),
        digest: MessageDigest::sha256(),
        subject: "localhost",
        issuer: "localhost",
        version: 2,
        serial: 1,
        embedded: &key,
        signer: &key,
    });
    let outcome = inspect(pem, "localhost", NOW, NOW + 365 * 86400, &public_der(&key));
    assert_eq!(outcome.unwrap_err(), TrustError::Crypto);
}

#[test]
fn inspection_refuses_a_signature_over_another_digest() {
    let key = generate_key_pair(KeyAlgorithm::Tls).unwrap().private_pem;
    let pem = forge(Forged {
        organisation: None,
        digest: MessageDigest::sha384(),
        subject: "localhost",
        issuer: "localhost",
        version: 2,
        serial: 1,
        embedded: &key,
        signer: &key,
    });
    let outcome = inspect(pem, "localhost", NOW, NOW + 365 * 86400, &public_der(&key));
    assert_eq!(outcome.unwrap_err(), TrustError::Crypto);
}

#[test]
fn certificate_before_the_epoch_is_issued_or_refused_without_a_panic() {
    let key = generate_key_pair(KeyAlgorithm::Tls).unwrap();
    if let Ok(certificate) = issue_self_signed_at(&key.private_pem, "localhost", 1, -86400) {
        assert_eq!(certificate.not_before, -86400);
        assert_eq!(certificate.not_after, 0);
    }
}

#[test]
fn encrypted_key_is_a_parse_error_and_nobody_is_asked() {
    let pair = generate_key_pair(KeyAlgorithm::Tls).unwrap();
    let key = PKey::private_key_from_pem(&pair.private_pem).unwrap();
    let sealed = key.private_key_to_pem_pkcs8_passphrase(Cipher::aes_128_cbc(), b"secret").unwrap();
    let outcome = issue_self_signed_at(&sealed, "localhost", 365, NOW);
    assert_eq!(outcome.unwrap_err(), TrustError::Parse);
    let legacy = key.rsa().unwrap().private_key_to_pem_passphrase(Cipher::aes_128_cbc(), b"secret");
    let outcome = issue_self_signed_at(&legacy.unwrap(), "localhost", 365, NOW);
    assert_eq!(outcome.unwrap_err(), TrustError::Parse);
}

#[test]
fn encryption_header_is_found_wherever_it_stands() {
    assert!(has_encryption_header(b"Proc-Type"));
    assert!(has_encryption_header(b"Proc-Type: 4,ENCRYPTED"));
    assert!(has_encryption_header(b"-----BEGIN CERTIFICATE-----\nProc-Type: 4,ENCRYPTED\n"));
    assert!(has_encryption_header(b"xxProc-Type"));
    assert!(!has_encryption_header(b""));
    assert!(!has_encryption_header(b"Proc-Typ"));
    assert!(!has_encryption_header(b"proc-type: 4,ENCRYPTED"));
    assert!(!has_encryption_header(b"Proc_Type: 4,ENCRYPTED"));
    let key = generate_key_pair(KeyAlgorithm::Tls).unwrap();
    let certificate = issue_self_signed_at(&key.private_pem, "localhost", 365, NOW).unwrap();
    assert!(!has_encryption_header(&certificate.pem));
}

#[test]
fn inspection_refuses_a_certificate_that_announces_encryption() {
    let key = generate_key_pair(KeyAlgorithm::Tls).unwrap();
    let certificate = issue_self_signed_at(&key.private_pem, "localhost", 365, NOW).unwrap();
    let end = NOW + 365 * 86400;
    let text = String::from_utf8(certificate.pem.clone()).unwrap();
    let marked = text.replacen(
        "-----BEGIN CERTIFICATE-----\n",
        "-----BEGIN CERTIFICATE-----\nProc-Type: 4,ENCRYPTED\nDEK-Info: AES-128-CBC,00\n\n",
        1,
    );
    assert_ne!(marked, text);
    let outcome = inspect(marked.into_bytes(), "localhost", NOW, end, &certificate.public_key);
    assert_eq!(outcome.unwrap_err(), TrustError::Crypto);
    let mut trailing = certificate.pem.clone();
    trailing.extend_from_slice(b"Proc-Type: 4,ENCRYPTED\n");
    let outcome = inspect(trailing, "localhost", NOW, end, &certificate.public_key);
    assert_eq!(outcome.unwrap_err(), TrustError::Crypto);
}

fn body_of(pem: &[u8]) -> Vec<u8> {
    let text = String::from_utf8(pem.to_vec()).unwrap();
    let joined: String = text.lines().filter(|line| !line.starts_with("-----")).collect();
    decode_block(&joined).unwrap()
}

// Seals `der` once more in the way of the PEM header, under the empty
// passphrase, in a block of the given name.
fn sealed_again(name: &str, der: &[u8]) -> Vec<u8> {
    let iv = [7u8; 16];
    let cipher = Cipher::aes_128_cbc();
    let pair = bytes_to_key(cipher, MessageDigest::md5(), b"", Some(&iv[..8]), 1).unwrap();
    let sealed = encrypt(cipher, &pair.key, Some(&iv), der).unwrap();
    let mut pem = format!("-----BEGIN {}-----\nProc-Type: 4,ENCRYPTED\nDEK-Info: AES-128-CBC,", name);
    for byte in iv {
        pem.push_str(&format!("{:02X}", byte));
    }
    pem.push_str("\n\n");
    let encoded = encode_block(&sealed);
    for chunk in encoded.as_bytes().chunks(64) {
        pem.push_str(std::str::from_utf8(chunk).unwrap());
        pem.push('\n');
    }
    pem.push_str(&format!("-----END {}-----\n", name));
    pem.into_bytes()
}

#[test]
fn key_block_with_both_kinds_of_encryption_is_a_parse_error() {
    let pair = generate_key_pair(KeyAlgorithm::Tls).unwrap();
    let key = PKey::private_key_from_pem(&pair.private_pem).unwrap();
    let sealed = key.private_key_to_pem_pkcs8_passphrase(Cipher::aes_128_cbc(), b"secret").unwrap();
    let both = sealed_again("ENCRYPTED PRIVATE KEY", &body_of(&sealed));
    let outcome = issue_self_signed_at(&both, "localhost", 365, NOW);
    assert_eq!(outcome.unwrap_err(), TrustError::Parse);
    let outcome = issue_self_signed(&both, "localhost", 365);
    assert_eq!(outcome.unwrap_err(), TrustError::Parse);
}

#[test]
fn inspection_refuses_bytes_around_the_certificate() {
    let key = generate_key_pair(KeyAlgorithm::Tls).unwrap();
    let certificate = issue_self_signed_at(&key.private_pem, "localhost", 365, NOW).unwrap();
    let end = NOW + 365 * 86400;
    let public = certificate.public_key.clone();
    assert!(inspect(certificate.pem.clone(), "localhost", NOW, end, &public).is_ok());

    let mut trailing = certificate.pem.clone();
    trailing.extend_from_slice(b"something after the end line\n");
    let outcome = inspect(trailing, "localhost", NOW, end, &public);
    assert_eq!(outcome.unwrap_err(), TrustError::Crypto);

    let mut leading = b"something before the first line\n".to_vec();
    leading.extend_from_slice(&certificate.pem);
    let outcome = inspect(leading, "localhost", NOW, end, &public);
    assert_eq!(outcome.unwrap_err(), TrustError::Crypto);

    let mut twice = certificate.pem.clone();
    twice.extend_from_slice(&certificate.pem);
    let outcome = inspect(twice, "localhost", NOW, end, &public);
    assert_eq!(outcome.unwrap_err(), TrustError::Crypto);
}
