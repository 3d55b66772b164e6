use openssl::asn1::Asn1Time;
use openssl::bn::{BigNum, BigNumRef};
use openssl::ec::{EcGroup, EcKey};
use openssl::ecdsa::EcdsaSig;
use openssl::hash::MessageDigest;
use openssl::nid::Nid;
use openssl::pkey::{PKey, Private};
use openssl::rsa::Rsa;
use openssl::x509::{X509Builder, X509NameBuilder};
use trustee::attestation::{outcome, verify, verify_bytes};
use trustee::decode::KeyKind;
use trustee::error::VerificationError;
use trustee::report::{AttestationReport, Signature};

fn ec_key(curve: Nid) -> PKey<Private> {
    let group = EcGroup::from_curve_name(curve).unwrap();
    PKey::from_ec_key(EcKey::generate(&group).unwrap()).unwrap()
}

fn certificate_of(key: &PKey<Private>) -> Vec<u8> {
    let mut name = X509NameBuilder::new().unwrap();
    name.append_entry_by_text("CN", "platform").unwrap();
    let name = name.build();
    let mut builder = X509Builder::new().unwrap();
    builder.set_version(2).unwrap();
    builder.set_subject_name(&name).unwrap();
    builder.set_issuer_name(&name).unwrap();
    builder.set_not_before(&Asn1Time::days_from_now(0).unwrap()).unwrap();
    builder.set_not_after(&Asn1Time::days_from_now(1).unwrap()).unwrap();
    builder.set_pubkey(key).unwrap();
    let serial = BigNum::from_u32(7).unwrap().to_asn1_integer().unwrap();
    builder.set_serial_number(&serial).unwrap();
    let digest = if key.id() == openssl::pkey::Id::ED25519 {
        MessageDigest::null()
    } else {
        MessageDigest::sha256()
    };
    builder.sign(key, digest).unwrap();
    builder.build().to_pem().unwrap()
}

fn component(n: &BigNumRef) -> [u8; 72] {
    let mut out = [0u8; 72];
    for (i, byte) in n.to_vec().iter().rev().enumerate() {
        out[i] = *byte;
    }
    out
}

fn unsigned_report(policy: u32) -> AttestationReport {
    let mut launch_digest = [0u8; 32];
    for (i, byte) in launch_digest.iter_mut().enumerate() {
        *byte = (i as u8).wrapping_mul(7).wrapping_add(1);
    }
    AttestationReport {
        nonce: [0u8; 16],
        launch_digest,
        policy,
        sig_usage: 0x1002,
        sig_algo: 0x0002,
        reserved: 0,
        signature: Signature { r: [0u8; 72], s: [0u8; 72] },
    }
}

fn signed_report(key: &PKey<Private>, policy: u32) -> AttestationReport {
    let mut report = unsigned_report(policy);
    let signature = EcdsaSig::sign(&report.measurable_bytes(), &key.ec_key().unwrap()).unwrap();
    report.signature = Signature { r: component(signature.r()), s: component(signature.s()) };
    report
}

#[test]
fn report_signed_by_certificate_key_is_accepted() {
    let key = ec_key(Nid::SECP384R1);
    let report = signed_report(&key, 0);
    assert_eq!(verify(&certificate_of(&key), &report), Ok(()));
}

#[test]
fn report_is_accepted_on_every_curve_that_fits_the_signature() {
    for curve in [Nid::X9_62_PRIME256V1, Nid::SECP384R1, Nid::SECP521R1] {
        let key = ec_key(curve);
        let report = signed_report(&key, 0x0001_0005);
        assert_eq!(verify(&certificate_of(&key), &report), Ok(()));
    }
}

#[test]
fn report_is_rejected_by_another_certificate() {
    let key = ec_key(Nid::SECP384R1);
    let other = ec_key(Nid::SECP384R1);
    let report = signed_report(&key, 0);
    assert_eq!(
        verify(&certificate_of(&other), &report),
        Err(VerificationError::SignatureMismatch)
    );
}

#[test]
fn verification_gives_the_same_answer_every_time() {
    let key = ec_key(Nid::SECP384R1);
    let other = ec_key(Nid::SECP384R1);
    let report = signed_report(&key, 0);
    let good = certificate_of(&key);
    let bad = certificate_of(&other);
    for _ in 0..3 {
        assert_eq!(verify(&good, &report), Ok(()));
        assert_eq!(verify(&bad, &report), Err(VerificationError::SignatureMismatch));
    }
}

// The curve's order is longer than the signed range, so that every byte of
// the range enters the check.
#[test]
fn any_flipped_bit_in_nonce_digest_or_policy_is_rejected() {
    let key = ec_key(Nid::SECP521R1);
    let certificate = certificate_of(&key);
    let report = signed_report(&key, 0);
    assert_eq!(verify(&certificate, &report), Ok(()));
    for bit in 0..8 {
        for index in [0usize, 7, 15] {
            let mut flipped = report;
            flipped.nonce[index] ^= 1 << bit;
            assert_eq!(
                verify(&certificate, &flipped),
                Err(VerificationError::SignatureMismatch)
            );
        }
        for index in [0usize, 16, 31] {
            let mut flipped = report;
            flipped.launch_digest[index] ^= 1 << bit;
            assert_eq!(
                verify(&certificate, &flipped),
                Err(VerificationError::SignatureMismatch)
            );
        }
    }
    for bit in 0..32 {
        let mut flipped = report;
        flipped.policy ^= 1 << bit;
        assert_eq!(verify(&certificate, &flipped), Err(VerificationError::SignatureMismatch));
    }
}

#[test]
fn flipped_bit_in_the_signature_is_rejected() {
    let key = ec_key(Nid::SECP384R1);
    let certificate = certificate_of(&key);
    let mut report = signed_report(&key, 0);
    report.signature.r[0] ^= 1;
    assert_eq!(verify(&certificate, &report), Err(VerificationError::SignatureMismatch));
}

#[test]
fn words_outside_the_signed_range_do_not_matter() {
    let key = ec_key(Nid::SECP384R1);
    let certificate = certificate_of(&key);
    let mut report = signed_report(&key, 0);
    report.sig_usage = 0xdead_beef;
    report.sig_algo = 0xffff_ffff;
    report.reserved = 42;
    assert_eq!(verify(&certificate, &report), Ok(()));
}

#[test]
fn certificate_with_rsa_key_is_the_wrong_type() {
    let key = ec_key(Nid::SECP384R1);
    let rsa = PKey::from_rsa(Rsa::generate(2048).unwrap()).unwrap();
    let report = signed_report(&key, 0);
    assert_eq!(verify(&certificate_of(&rsa), &report), Err(VerificationError::WrongKeyType));
}

#[test]
fn certificate_with_ed25519_key_is_the_wrong_type() {
    let key = ec_key(Nid::SECP384R1);
    let ed = PKey::generate_ed25519().unwrap();
    let report = signed_report(&key, 0);
    assert_eq!(verify(&certificate_of(&ed), &report), Err(VerificationError::WrongKeyType));
}

#[test]
fn garbage_certificate_is_malformed() {
    let key = ec_key(Nid::SECP384R1);
    let report = signed_report(&key, 0);
    assert_eq!(
        verify(b"not a certificate", &report),
        Err(VerificationError::MalformedCertificate)
    );
    assert_eq!(verify(b"", &report), Err(VerificationError::MalformedCertificate));
    let mut truncated = certificate_of(&key);
    truncated.truncate(100);
    assert_eq!(verify(&truncated, &report), Err(VerificationError::MalformedCertificate));
}

#[test]
fn unsigned_report_is_rejected_without_a_panic() {
    let key = ec_key(Nid::SECP384R1);
    let certificate = certificate_of(&key);
    let outcome = verify(&certificate, &unsigned_report(0));
    assert!(outcome.is_err());
    let mut noise = unsigned_report(0);
    noise.signature = Signature { r: [0xff; 72], s: [0xff; 72] };
    assert!(verify(&certificate, &noise).is_err());
}

#[test]
fn report_read_from_the_wire_verifies_like_the_report_itself() {
    let key = ec_key(Nid::SECP384R1);
    let certificate = certificate_of(&key);
    let report = signed_report(&key, 3);
    let read = AttestationReport::from_bytes(&report.to_bytes()).unwrap();
    assert_eq!(verify(&certificate, &read), Ok(()));
}

#[test]
fn outcome_maps_key_kind_and_check_to_a_verdict() {
    let ec = Some(KeyKind::EllipticCurve);
    assert_eq!(outcome(ec, Some(true)), Ok(()));
    assert_eq!(outcome(ec, Some(false)), Err(VerificationError::SignatureMismatch));
    assert_eq!(outcome(ec, None), Err(VerificationError::Crypto));
    assert_eq!(outcome(Some(KeyKind::Rsa), Some(true)), Err(VerificationError::WrongKeyType));
    assert_eq!(outcome(Some(KeyKind::Ed25519), None), Err(VerificationError::WrongKeyType));
    assert_eq!(outcome(Some(KeyKind::Other), Some(false)), Err(VerificationError::WrongKeyType));
    assert_eq!(outcome(None, Some(true)), Err(VerificationError::MalformedCertificate));
    assert_eq!(outcome(None, None), Err(VerificationError::MalformedCertificate));
}

#[test]
fn rejections_have_their_messages() {
    assert_eq!(VerificationError::MalformedReport.message(), "malformed report");
    assert_eq!(VerificationError::MalformedCertificate.message(), "malformed certificate");
    assert_eq!(
        VerificationError::WrongKeyType.message(),
        "certificate key is not an elliptic-curve key"
    );
    assert_eq!(
        VerificationError::SignatureMismatch.message(),
        "signature does not match the report"
    );
    assert_eq!(VerificationError::Crypto.message(), "signature check failed");
}

#[test]
fn report_bytes_verify_like_the_report_they_lay_out() {
    let key = ec_key(Nid::SECP384R1);
    let other = ec_key(Nid::SECP384R1);
    let report = signed_report(&key, 0);
    let wire = report.to_bytes();
    assert_eq!(verify_bytes(&certificate_of(&key), &wire), Ok(()));
    assert_eq!(
        verify_bytes(&certificate_of(&other), &wire),
        Err(VerificationError::SignatureMismatch)
    );
    assert_eq!(verify_bytes(b"garbage", &wire), Err(VerificationError::MalformedCertificate));
}

#[test]
fn bytes_that_are_no_report_are_rejected_without_a_panic() {
    let key = ec_key(Nid::SECP384R1);
    let certificate = certificate_of(&key);
    let wire = signed_report(&key, 0).to_bytes();
    assert_eq!(verify_bytes(&certificate, &[]), Err(VerificationError::MalformedReport));
    assert_eq!(verify_bytes(&certificate, &wire[..207]), Err(VerificationError::MalformedReport));
    let mut longer = wire.clone();
    longer.push(0);
    assert_eq!(verify_bytes(&certificate, &longer), Err(VerificationError::MalformedReport));
    assert_eq!(
        verify_bytes(&certificate, &[0xffu8; 208]),
        Err(VerificationError::SignatureMismatch)
    );
    assert!(verify_bytes(&certificate, &[0u8; 208]).is_err());
}

#[test]
fn certificate_that_announces_encryption_is_malformed_and_nobody_is_asked() {
    let key = ec_key(Nid::SECP384R1);
    let report = signed_report(&key, 0);
    let text = String::from_utf8(certificate_of(&key)).unwrap();
    let marked = text.replacen(
        "-----BEGIN CERTIFICATE-----\n",
        "-----BEGIN CERTIFICATE-----\nProc-Type: 4,ENCRYPTED\nDEK-Info: AES-128-CBC,00\n\n",
        1,
    );
    assert_ne!(marked, text);
    assert_eq!(
        verify(marked.as_bytes(), &report),
        Err(VerificationError::MalformedCertificate)
    );
    assert_eq!(verify(text.as_bytes(), &report), Ok(()));
}
