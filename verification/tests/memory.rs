use trustee::error::TrustError;
use trustee::memory::TrustStore;
use trustee::protocol::{IoFailure, Reply, Request};

#[test]
fn new_store_is_empty() {
    let store = TrustStore::new();
    assert!(!store.contains("auth_key.pem"));
    assert!(!store.contains(""));
    assert_eq!(store.read("auth_key.pem"), None);
}

#[test]
fn safe_write_to_a_free_path_puts_the_contents_there() {
    let mut store = TrustStore::new();
    assert_eq!(store.safe_write("a".to_string(), vec![1, 2, 3]), Ok(()));
    assert!(store.contains("a"));
    assert_eq!(store.read("a"), Some(vec![1, 2, 3]));
    assert!(!store.contains("b"));
}

#[test]
fn safe_write_never_overwrites_a_valid_file() {
    let mut store = TrustStore::new();
    store.safe_write("a".to_string(), b"a key".to_vec()).unwrap();
    let second = store.safe_write("a".to_string(), b"another key".to_vec());
    assert_eq!(second, Err(TrustError::AlreadyExists));
    assert_eq!(store.read("a"), Some(b"a key".to_vec()));
}

#[test]
fn safe_write_never_overwrites_garbage_or_an_empty_file() {
    let mut store = TrustStore::new();
    store.safe_write("garbage".to_string(), vec![0xff, 0x00, 0xfe]).unwrap();
    store.safe_write("empty".to_string(), Vec::new()).unwrap();
    assert_eq!(
        store.safe_write("garbage".to_string(), b"key".to_vec()),
        Err(TrustError::AlreadyExists)
    );
    assert_eq!(
        store.safe_write("empty".to_string(), b"key".to_vec()),
        Err(TrustError::AlreadyExists)
    );
    assert_eq!(store.read("garbage"), Some(vec![0xff, 0x00, 0xfe]));
    assert_eq!(store.read("empty"), Some(Vec::new()));
}

#[test]
fn refused_safe_write_leaves_other_files_alone() {
    let mut store = TrustStore::new();
    store.safe_write("a".to_string(), vec![1]).unwrap();
    store.safe_write("b".to_string(), vec![2]).unwrap();
    assert!(store.safe_write("a".to_string(), vec![9]).is_err());
    assert_eq!(store.read("a"), Some(vec![1]));
    assert_eq!(store.read("b"), Some(vec![2]));
}

#[test]
fn plain_write_replaces_what_is_there() {
    let mut store = TrustStore::new();
    store.write("policy".to_string(), b"old".to_vec());
    store.write("other".to_string(), b"other".to_vec());
    store.write("policy".to_string(), b"new".to_vec());
    assert_eq!(store.read("policy"), Some(b"new".to_vec()));
    assert_eq!(store.read("other"), Some(b"other".to_vec()));
    assert_eq!(
        store.safe_write("policy".to_string(), b"newer".to_vec()),
        Err(TrustError::AlreadyExists)
    );
    assert_eq!(store.read("policy"), Some(b"new".to_vec()));
}

#[test]
fn store_answers_a_probe() {
    let mut store = TrustStore::new();
    store.write("a".to_string(), vec![1]);
    let reply = store.answer(Request::Probe { path: "a".to_string() });
    assert!(matches!(reply, Some(Reply::Exists { present: true })));
    let reply = store.answer(Request::Probe { path: "b".to_string() });
    assert!(matches!(reply, Some(Reply::Exists { present: false })));
}

#[test]
fn store_answers_a_safe_write() {
    let mut store = TrustStore::new();
    let reply = store.answer(Request::Create { path: "a".to_string(), contents: vec![1] });
    assert!(matches!(reply, Some(Reply::Created)));
    let reply = store.answer(Request::Create { path: "a".to_string(), contents: vec![2] });
    assert!(matches!(reply, Some(Reply::Failed { error: TrustError::AlreadyExists })));
    assert_eq!(store.read("a"), Some(vec![1]));
}

#[test]
fn store_answers_a_read() {
    let mut store = TrustStore::new();
    store.write("a".to_string(), vec![1, 2]);
    match store.answer(Request::Read { path: "a".to_string() }) {
        Some(Reply::Contents { bytes }) => assert_eq!(bytes, vec![1, 2]),
        other => panic!("unexpected reply {:?}", other),
    }
    let reply = store.answer(Request::Read { path: "b".to_string() });
    assert!(matches!(reply, Some(Reply::Missing)));
}

#[test]
fn store_has_no_answer_to_requests_that_are_not_for_it() {
    let mut store = TrustStore::new();
    store.write("a".to_string(), vec![1]);
    assert!(store.answer(Request::Done).is_none());
    assert!(store.answer(Request::Abort { error: TrustError::Io }).is_none());
    let generate = Request::Generate { algorithm: trustee::keys::KeyAlgorithm::Signing };
    assert!(store.answer(generate).is_none());
    let issue = Request::Issue {
        private_key: vec![1],
        subject: "localhost".to_string(),
        validity_days: 365,
    };
    assert!(store.answer(issue).is_none());
    assert_eq!(store.read("a"), Some(vec![1]));
}

#[test]
fn outcome_of_a_probe_becomes_its_reply() {
    assert!(matches!(Reply::probed(Ok(true)), Reply::Exists { present: true }));
    assert!(matches!(Reply::probed(Ok(false)), Reply::Exists { present: false }));
    for failure in [IoFailure::AlreadyExists, IoFailure::NotFound, IoFailure::Other] {
        assert!(matches!(Reply::probed(Err(failure)), Reply::Failed { error: TrustError::Io }));
    }
}

#[test]
fn outcome_of_a_safe_write_becomes_its_reply() {
    assert!(matches!(Reply::created(Ok(())), Reply::Created));
    assert!(matches!(
        Reply::created(Err(IoFailure::AlreadyExists)),
        Reply::Failed { error: TrustError::AlreadyExists }
    ));
    assert!(matches!(
        Reply::created(Err(IoFailure::NotFound)),
        Reply::Failed { error: TrustError::Io }
    ));
    assert!(matches!(
        Reply::created(Err(IoFailure::Other)),
        Reply::Failed { error: TrustError::Io }
    ));
}

#[test]
fn outcome_of_a_read_becomes_its_reply() {
    assert!(matches!(Reply::read(Ok(vec![1, 2])), Reply::Contents { bytes } if bytes == [1, 2]));
    assert!(matches!(Reply::read(Err(IoFailure::NotFound)), Reply::Missing));
    assert!(matches!(
        Reply::read(Err(IoFailure::Other)),
        Reply::Failed { error: TrustError::Io }
    ));
    assert!(matches!(
        Reply::read(Err(IoFailure::AlreadyExists)),
        Reply::Failed { error: TrustError::Io }
    ));
}

#[test]
fn answering_requests_never_changes_a_file() {
    let mut store = TrustStore::new();
    store.write("a".to_string(), vec![1]);
    store.answer(Request::Probe { path: "a".to_string() });
    store.answer(Request::Read { path: "a".to_string() });
    store.answer(Request::Create { path: "a".to_string(), contents: vec![2] });
    store.answer(Request::Create { path: "b".to_string(), contents: vec![3] });
    assert_eq!(store.read("a"), Some(vec![1]));
    assert_eq!(store.read("b"), Some(vec![3]));
}
