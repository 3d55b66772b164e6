use openssl::pkey::PKey;
use openssl::x509::X509;
use trustee::cert_store::{ensure_https_cert, CertStep};
use trustee::provision::ensure_certificate;
use trustee::keys::{generate_key_pair, KeyAlgorithm};
use trustee::memory::TrustStore;
use trustee::error::TrustError;
use trustee::protocol::{Reply, Request};

#[test]
fn certificate_has_its_fixed_name_under_home() {
    let (flow, request) = ensure_https_cert("/home/trustee", "/keys/https_key.pem", true);
    assert_eq!(flow.step, CertStep::Probing);
    assert_eq!(flow.certificate_path, "/home/trustee/https_cert.pem");
    assert_eq!(flow.private_key_path, "/keys/https_key.pem");
    assert!(flow.key_configured);
    assert!(matches!(request, Request::Probe { path } if path == "/home/trustee/https_cert.pem"));
}

#[test]
fn certificate_that_is_there_is_taken_as_it_is() {
    let (flow, _) = ensure_https_cert("home", "home/https_key.pem", false);
    let (flow, request) = flow.step(Reply::Exists { present: true });
    assert_eq!(flow.step, CertStep::Finished);
    assert!(matches!(request, Request::Done));
}

#[test]
fn missing_certificate_is_issued_for_the_key_and_written() {
    let (flow, _) = ensure_https_cert("home", "home/https_key.pem", false);
    let (flow, request) = flow.step(Reply::Exists { present: false });
    assert_eq!(flow.step, CertStep::Reading);
    assert!(matches!(request, Request::Read { path } if path == "home/https_key.pem"));

    let (flow, request) = flow.step(Reply::Contents { bytes: vec![7, 7] });
    assert_eq!(flow.step, CertStep::Issuing);
    match request {
        Request::Issue { private_key, subject, validity_days } => {
            assert_eq!(private_key, vec![7, 7]);
            assert_eq!(subject, "localhost");
            assert_eq!(validity_days, 365);
        }
        other => panic!("unexpected request {:?}", other),
    }

    let (flow, request) = flow.step(Reply::Issued { pem: vec![8, 8] });
    assert_eq!(flow.step, CertStep::Writing);
    match request {
        Request::Create { path, contents } => {
            assert_eq!(path, "home/https_cert.pem");
            assert_eq!(contents, vec![8, 8]);
        }
        other => panic!("unexpected request {:?}", other),
    }

    let (flow, request) = flow.step(Reply::Created);
    assert_eq!(flow.step, CertStep::Finished);
    assert!(matches!(request, Request::Done));
}

#[test]
fn missing_configured_key_is_a_fault_of_the_configuration() {
    let (flow, _) = ensure_https_cert("home", "/etc/missing.pem", true);
    let (flow, _) = flow.step(Reply::Exists { present: false });
    let (flow, request) = flow.step(Reply::Missing);
    assert_eq!(flow.step, CertStep::Failed(TrustError::Config));
    assert!(matches!(request, Request::Abort { error: TrustError::Config }));
}

#[test]
fn missing_provisioned_key_is_an_io_failure() {
    let (flow, _) = ensure_https_cert("home", "home/https_key.pem", false);
    let (flow, _) = flow.step(Reply::Exists { present: false });
    let (flow, request) = flow.step(Reply::Missing);
    assert_eq!(flow.step, CertStep::Failed(TrustError::Io));
    assert!(matches!(request, Request::Abort { error: TrustError::Io }));
}

#[test]
fn failed_request_ends_the_certificate_provision() {
    for error in [TrustError::Io, TrustError::Parse, TrustError::Crypto] {
        let (flow, _) = ensure_https_cert("home", "home/https_key.pem", false);
        let (flow, _) = flow.step(Reply::Exists { present: false });
        let (flow, _) = flow.step(Reply::Contents { bytes: vec![1] });
        let (flow, request) = flow.step(Reply::Failed { error });
        assert_eq!(flow.step, CertStep::Failed(error));
        assert!(matches!(request, Request::Abort { error: e } if e == error));
    }
}

#[test]
fn certificate_written_by_another_process_is_not_overwritten() {
    let (flow, _) = ensure_https_cert("home", "home/https_key.pem", false);
    let (flow, _) = flow.step(Reply::Exists { present: false });
    let (flow, _) = flow.step(Reply::Contents { bytes: vec![1] });
    let (flow, _) = flow.step(Reply::Issued { pem: vec![2] });
    let (flow, request) = flow.step(Reply::Failed { error: TrustError::AlreadyExists });
    assert_eq!(flow.step, CertStep::Failed(TrustError::AlreadyExists));
    assert!(matches!(request, Request::Abort { error: TrustError::AlreadyExists }));
}

#[test]
fn stray_reply_to_the_certificate_provision_is_an_io_failure() {
    let (flow, _) = ensure_https_cert("home", "home/https_key.pem", false);
    let (flow, request) = flow.step(Reply::Created);
    assert_eq!(flow.step, CertStep::Failed(TrustError::Io));
    assert!(matches!(request, Request::Abort { error: TrustError::Io }));
}

const NOW: i64 = 1_750_000_000;

#[test]
fn certificate_is_issued_for_the_stored_key_and_added() {
    let mut store = TrustStore::new();
    let key = generate_key_pair(KeyAlgorithm::Tls).unwrap();
    store.write("/h/https_key.pem".to_string(), key.private_pem.clone());
    let path = ensure_certificate(&mut store, "/h", "/h/https_key.pem", false, NOW).unwrap();
    assert_eq!(path, "/h/https_cert.pem");
    let certificate = X509::from_pem(&store.read("/h/https_cert.pem").unwrap()).unwrap();
    let public = PKey::public_key_from_pem(&key.public_pem).unwrap();
    assert!(certificate.verify(&public).unwrap());
    assert!(certificate.public_key().unwrap().public_eq(&public));
    let window = certificate.not_before().diff(certificate.not_after()).unwrap();
    assert_eq!((window.days, window.secs), (365, 0));
    assert_eq!(store.read("/h/https_key.pem"), Some(key.private_pem));
}

#[test]
fn certificate_is_issued_once() {
    let mut store = TrustStore::new();
    let key = generate_key_pair(KeyAlgorithm::Tls).unwrap();
    store.write("/h/https_key.pem".to_string(), key.private_pem);
    ensure_certificate(&mut store, "/h", "/h/https_key.pem", false, NOW).unwrap();
    let first = store.read("/h/https_cert.pem").unwrap();
    let path = ensure_certificate(&mut store, "/h", "/h/https_key.pem", false, NOW + 86400);
    assert_eq!(path, Ok("/h/https_cert.pem".to_string()));
    assert_eq!(store.read("/h/https_cert.pem").unwrap(), first);
}

#[test]
fn certificate_that_is_there_is_not_read_or_replaced() {
    let mut store = TrustStore::new();
    store.write("/h/https_cert.pem".to_string(), b"garbage".to_vec());
    let path = ensure_certificate(&mut store, "/h", "/nowhere.pem", true, NOW);
    assert_eq!(path, Ok("/h/https_cert.pem".to_string()));
    assert_eq!(store.read("/h/https_cert.pem"), Some(b"garbage".to_vec()));
}

#[test]
fn certificate_cannot_be_issued_without_its_key() {
    let mut store = TrustStore::new();
    let outcome = ensure_certificate(&mut store, "/h", "/etc/tls.pem", true, NOW);
    assert_eq!(outcome, Err(TrustError::Config));
    let outcome = ensure_certificate(&mut store, "/h", "/h/https_key.pem", false, NOW);
    assert_eq!(outcome, Err(TrustError::Io));
    assert!(!store.contains("/h/https_cert.pem"));
}

#[test]
fn certificate_cannot_be_issued_for_a_corrupt_key() {
    let mut store = TrustStore::new();
    store.write("/h/https_key.pem".to_string(), Vec::new());
    let outcome = ensure_certificate(&mut store, "/h", "/h/https_key.pem", false, NOW);
    assert_eq!(outcome, Err(TrustError::Parse));
    assert!(!store.contains("/h/https_cert.pem"));
    assert_eq!(store.read("/h/https_key.pem"), Some(Vec::new()));
}
