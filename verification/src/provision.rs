//! Provision of key pairs and of the certificate in a trust store in memory.
//!
//! Each provision is run to its end on the store, one request after the
//! other. What a provision does to the store, and what it leaves alone, is
//! stated here in full: these are the rules of the key material store.

use vstd::prelude::*;
use crate::cert::{spec_default_subject, DEFAULT_VALIDITY_DAYS};
use crate::cert_store::{ensure_https_cert, spec_cert_step, CertFlowView, CertStep};
use crate::decode::spec_public_der;
use crate::driver::{perform, spec_fulfils, spec_performs};
use crate::error::TrustError;
use crate::key_store::{spec_key_step, KeyPairFlow, KeyPairFlowView, KeyStep};
use crate::keys::{spec_is_pair, KeyAlgorithm};
use crate::layout::{
    lemma_pair_paths_differ,
    spec_certificate_name,
    spec_join,
    spec_private_path,
    spec_public_path,
};
use crate::memory::TrustStore;
use crate::ossl::MAX_INPUT;
use crate::protocol::{ReplyView, Request, RequestView};

verus! {

/// What two safe writes, the private half first, make of a store that held
/// `before`, and how they end. A private key that is there stops both; a
/// public key that is there stops the second, and the private half stays
/// behind.
pub open spec fn spec_pair_written(
    flow: KeyPairFlowView,
    before: Map<Seq<char>, Seq<u8>>,
    private_pem: Seq<u8>,
    public_pem: Seq<u8>,
) -> (Map<Seq<char>, Seq<u8>>, Result<(), TrustError>) {
    if before.contains_key(flow.private_path) {
        (before, Err(TrustError::AlreadyExists))
    } else if before.contains_key(flow.public_path) {
        (before.insert(flow.private_path, private_pem), Err(TrustError::AlreadyExists))
    } else {
        (
            before.insert(flow.private_path, private_pem).insert(flow.public_path, public_pem),
            Ok(()),
        )
    }
}

/// Whether the store and the outcome stand as they may after a new pair was
/// to be written, for which `private_pem` and `public_pem` were generated if
/// any were: either no pair could be generated, the outcome is `Crypto` and
/// the store is as it was; or the two are a pair for the role, and store and
/// outcome are what the two safe writes make of them.
pub open spec fn spec_pair_created(
    flow: KeyPairFlowView,
    outcome: Result<(), TrustError>,
    before: Map<Seq<char>, Seq<u8>>,
    after: Map<Seq<char>, Seq<u8>>,
    private_pem: Seq<u8>,
    public_pem: Seq<u8>,
) -> bool {
    ||| outcome == Err::<(), TrustError>(TrustError::Crypto) && after == before
    ||| {
        &&& spec_is_pair(flow.algorithm, private_pem, public_pem)
        &&& spec_pair_written(flow, before, private_pem, public_pem) == (after, outcome)
    }
}

/// Whether the store and the outcome stand as they may after making sure of
/// a pair: a private key that was there has left the store as it was, and
/// the outcome is good; otherwise a new pair was to be written.
pub open spec fn spec_pair_ensured(
    flow: KeyPairFlowView,
    outcome: Result<(), TrustError>,
    before: Map<Seq<char>, Seq<u8>>,
    after: Map<Seq<char>, Seq<u8>>,
    private_pem: Seq<u8>,
    public_pem: Seq<u8>,
) -> bool {
    if before.contains_key(flow.private_path) {
        outcome is Ok && after == before
    } else {
        spec_pair_created(flow, outcome, before, after, private_pem, public_pem)
    }
}

/// The outcome that a provision has come to, once it is over.
pub open spec fn spec_outcome(flow: KeyPairFlowView) -> Result<(), TrustError> {
    match flow.step {
        KeyStep::Failed(error) => Err(error),
        _ => Ok(()),
    }
}

/// What holds between the calls of a provision that runs on a store which
/// held `before` when it began and holds `files` now. The provision began
/// with a probe, or else with the generation of a pair.
pub open spec fn spec_provision_invariant(
    probed: bool,
    flow: KeyPairFlowView,
    request: RequestView,
    before: Map<Seq<char>, Seq<u8>>,
    files: Map<Seq<char>, Seq<u8>>,
    private_pem: Seq<u8>,
    public_pem: Seq<u8>,
) -> bool {
    let absent = !before.contains_key(flow.private_path);
    let pair = spec_is_pair(flow.algorithm, private_pem, public_pem);
    match flow.step {
        KeyStep::Probing => {
            &&& probed
            &&& files == before
            &&& request == (RequestView::Probe { path: flow.private_path })
        },
        KeyStep::Generating => {
            &&& files == before
            &&& probed ==> absent
            &&& request == (RequestView::Generate { algorithm: flow.algorithm })
        },
        KeyStep::WritingPrivate => {
            &&& pair
            &&& files == before
            &&& probed ==> absent
            &&& flow.pending == public_pem
            &&& request == (RequestView::Create { path: flow.private_path, contents: private_pem })
        },
        KeyStep::WritingPublic => {
            &&& pair
            &&& absent
            &&& files == before.insert(flow.private_path, private_pem)
            &&& request == (RequestView::Create { path: flow.public_path, contents: public_pem })
        },
        _ => {
            &&& request == if let KeyStep::Failed(error) = flow.step {
                RequestView::Abort { error }
            } else {
                RequestView::Done
            }
            &&& if probed {
                spec_pair_ensured(flow, spec_outcome(flow), before, files, private_pem, public_pem)
            } else {
                spec_pair_created(flow, spec_outcome(flow), before, files, private_pem, public_pem)
            }
        },
    }
}

/// Runs a provision to its end on the store in memory.
fn run_provision(
    store: &mut TrustStore,
    flow: KeyPairFlow,
    request: Request,
    Ghost(probed): Ghost<bool>,
) -> (r: (KeyPairFlow, Ghost<(Seq<u8>, Seq<u8>)>))
    requires
        flow@.private_path != flow@.public_path,
        flow@.step is Probing || flow@.step is Generating,
        spec_provision_invariant(
            probed,
            flow@,
            request@,
            old(store)@,
            old(store)@,
            Seq::empty(),
            Seq::empty(),
        ),
    ensures
        r.0@.private_path == flow@.private_path,
        r.0@.public_path == flow@.public_path,
        r.0@.algorithm == flow@.algorithm,
        r.0@.is_over(),
        probed ==> spec_pair_ensured(
            r.0@,
            spec_outcome(r.0@),
            old(store)@,
            final(store)@,
            r.1@.0,
            r.1@.1,
        ),
        !probed ==> spec_pair_created(
            r.0@,
            spec_outcome(r.0@),
            old(store)@,
            final(store)@,
            r.1@.0,
            r.1@.1,
        ),
{
    let ghost before = store@;
    let ghost algorithm = flow@.algorithm;
    let ghost private_path = flow@.private_path;
    let ghost public_path = flow@.public_path;
    let ghost mut private_pem: Seq<u8> = Seq::empty();
    let ghost mut public_pem: Seq<u8> = Seq::empty();
    let mut flow = flow;
    let mut request = request;
    while !request.is_final()
        invariant
            flow@.algorithm == algorithm,
            flow@.private_path == private_path,
            flow@.public_path == public_path,
            private_path != public_path,
            spec_provision_invariant(
                probed,
                flow@,
                request@,
                before,
                store@,
                private_pem,
                public_pem,
            ),
        decreases flow@.remaining(),
    {
        match perform(store, request, 0) {
            Some(reply) => {
                proof {
                    if let ReplyView::Generated { private_pem: made, public_pem: half } = reply@ {
                        if flow@.step is Generating {
                            private_pem = made;
                            public_pem = half;
                        }
                    }
                }
                let next = flow.step(reply);
                flow = next.0;
                request = next.1;
            },
            None => {
                request = Request::Done;
            },
        }
    }
    (flow, Ghost((private_pem, public_pem)))
}

/// The outcome of a provision: the paths of the pair, or the failure.
fn paths_or_failure(flow: KeyPairFlow) -> (r: Result<(String, String), TrustError>)
    ensures
        spec_paths(r) == spec_outcome(flow@),
        r matches Ok(paths) ==> paths.0@ == flow@.private_path && paths.1@ == flow@.public_path,
{
    match flow.step {
        KeyStep::Failed(error) => Err(error),
        _ => Ok((flow.private_path, flow.public_path)),
    }
}

/// The outcome of a provision without the paths.
pub open spec fn spec_paths(result: Result<(String, String), TrustError>) -> Result<
    (),
    TrustError,
> {
    match result {
        Ok(_) => Ok(()),
        Err(error) => Err(error),
    }
}

/// Whether the store and the result stand as they may after making sure of
/// the pair at `base`, for which `private_pem` and `public_pem` were
/// generated if any were.
pub open spec fn spec_ensured(
    base: Seq<char>,
    algorithm: KeyAlgorithm,
    result: Result<(String, String), TrustError>,
    before: Map<Seq<char>, Seq<u8>>,
    after: Map<Seq<char>, Seq<u8>>,
    private_pem: Seq<u8>,
    public_pem: Seq<u8>,
) -> bool {
    spec_pair_ensured(
        KeyPairFlowView::begin(base, algorithm, KeyStep::Finished),
        spec_paths(result),
        before,
        after,
        private_pem,
        public_pem,
    )
}

/// Whether the store and the result stand as they may after a new pair was
/// to be written at `base`, for which `private_pem` and `public_pem` were
/// generated if any were.
pub open spec fn spec_created(
    base: Seq<char>,
    algorithm: KeyAlgorithm,
    result: Result<(String, String), TrustError>,
    before: Map<Seq<char>, Seq<u8>>,
    after: Map<Seq<char>, Seq<u8>>,
    private_pem: Seq<u8>,
    public_pem: Seq<u8>,
) -> bool {
    spec_pair_created(
        KeyPairFlowView::begin(base, algorithm, KeyStep::Finished),
        spec_paths(result),
        before,
        after,
        private_pem,
        public_pem,
    )
}

/// Makes sure that the key pair at `base_path` is in the store.
///
/// A private key that is there is taken as it is, whatever it holds: the
/// call returns the two paths and leaves the store untouched. Otherwise a
/// fresh pair for the role is generated and both halves are added with safe
/// writes, the private half first. When the public half's path holds a
/// file already, the call fails with `AlreadyExists` and the private half
/// stays behind; when no pair can be generated, it fails with `Crypto` and
/// the store is as it was.
pub fn ensure_key_pair(store: &mut TrustStore, base_path: &str, algorithm: KeyAlgorithm) -> (r:
    Result<(String, String), TrustError>)
    ensures
        r matches Ok(paths) ==> paths.0@ == spec_private_path(base_path@) && paths.1@
            == spec_public_path(base_path@),
        old(store)@.contains_key(spec_private_path(base_path@)) ==> r is Ok && final(store)@
            == old(store)@,
        exists|private_pem: Seq<u8>, public_pem: Seq<u8>|
            spec_ensured(
                base_path@,
                algorithm,
                r,
                old(store)@,
                final(store)@,
                private_pem,
                public_pem,
            ),
{
    proof {
        lemma_pair_paths_differ(base_path@);
    }
    let (flow, request) = KeyPairFlow::ensure(base_path, algorithm);
    let (flow, Ghost(material)) = run_provision(store, flow, request, Ghost(true));
    let r = paths_or_failure(flow);
    proof {
        assert(spec_ensured(base_path@, algorithm, r, old(store)@, store@, material.0, material.1));
    }
    r
}

/// Generates a new key pair and writes it at `base_path`.
///
/// Both halves are added with safe writes, the private half first. A
/// private key that is there makes the call fail with `AlreadyExists` and
/// leaves the store as it was; a public key that is there makes it fail
/// with `AlreadyExists` too, and the private half stays behind. When no
/// pair can be generated, the call fails with `Crypto` and the store is as
/// it was.
pub fn create_key_pair(store: &mut TrustStore, base_path: &str, algorithm: KeyAlgorithm) -> (r:
    Result<(String, String), TrustError>)
    ensures
        r matches Ok(paths) ==> paths.0@ == spec_private_path(base_path@) && paths.1@
            == spec_public_path(base_path@),
        exists|private_pem: Seq<u8>, public_pem: Seq<u8>|
            spec_created(
                base_path@,
                algorithm,
                r,
                old(store)@,
                final(store)@,
                private_pem,
                public_pem,
            ),
{
    proof {
        lemma_pair_paths_differ(base_path@);
    }
    let (flow, request) = KeyPairFlow::create(base_path, algorithm);
    let (flow, Ghost(material)) = run_provision(store, flow, request, Ghost(false));
    let r = paths_or_failure(flow);
    proof {
        assert(spec_created(base_path@, algorithm, r, old(store)@, store@, material.0, material.1));
    }
    r
}

/// Whether the store and the outcome stand as they may after making sure,
/// at the time `now`, of the certificate, for which `pem` was issued if any
/// was.
///
/// A certificate that was there has left the store as it was, and the
/// outcome is good. With none there and no private key to read, the outcome
/// is a failure, `Config` for a configured key and `Io` otherwise, and the
/// store is as it was. With a private key to read, a certificate that
/// conforms to the default subject and validity has been added; or the
/// outcome is a failure and the store is as it was, with `Parse` exactly
/// when the key is too long to read or does not decode.
pub open spec fn spec_certificate_ensured(
    flow: CertFlowView,
    outcome: Result<(), TrustError>,
    before: Map<Seq<char>, Seq<u8>>,
    after: Map<Seq<char>, Seq<u8>>,
    now: i64,
    pem: Seq<u8>,
) -> bool {
    if before.contains_key(flow.certificate_path) {
        outcome is Ok && after == before
    } else if !before.contains_key(flow.private_key_path) {
        outcome == Err::<(), TrustError>(flow.missing_key()) && after == before
    } else {
        match outcome {
            Ok(_) => {
                &&& spec_issued(before[flow.private_key_path], now, pem)
                &&& after == before.insert(flow.certificate_path, pem)
            },
            Err(error) => after == before && error == spec_issue_failure(
                before[flow.private_key_path],
            ),
        }
    }
}

/// The outcome that a provision of the certificate has come to, once it is
/// over.
pub open spec fn spec_certificate_outcome(flow: CertFlowView) -> Result<(), TrustError> {
    match flow.step {
        CertStep::Failed(error) => Err(error),
        _ => Ok(()),
    }
}

/// Whether store and result stand as they may after making sure, at the time
/// `now`, of the certificate under `home` for the private key at
/// `private_path`, for which `pem` was issued if any was: a good result is
/// the certificate's path, and store and outcome are as
/// `spec_certificate_ensured` says.
pub open spec fn spec_certified(
    home: Seq<char>,
    private_path: Seq<char>,
    key_configured: bool,
    now: i64,
    result: Result<String, TrustError>,
    before: Map<Seq<char>, Seq<u8>>,
    after: Map<Seq<char>, Seq<u8>>,
    pem: Seq<u8>,
) -> bool {
    &&& result matches Ok(given) ==> given@ == spec_join(home, spec_certificate_name())
    &&& spec_certificate_ensured(
        CertFlowView::begin(home, private_path, key_configured, CertStep::Probing),
        match result {
            Ok(_) => Ok(()),
            Err(error) => Err(error),
        },
        before,
        after,
        now,
        pem,
    )
}

/// Whether `pem` is the certificate that the service issues at the time `now`
/// for the encoded private key `private_key`.
pub open spec fn spec_issued(private_key: Seq<u8>, now: i64, pem: Seq<u8>) -> bool {
    spec_fulfils(
        RequestView::Issue {
            private_key,
            subject: spec_default_subject(),
            validity_days: DEFAULT_VALIDITY_DAYS,
        },
        now,
        ReplyView::Issued { pem },
    )
}

/// The failure that issuing a certificate for the encoded private key
/// `private_key` comes to.
pub open spec fn spec_issue_failure(private_key: Seq<u8>) -> TrustError {
    if private_key.len() > MAX_INPUT || spec_public_der(private_key) is None {
        TrustError::Parse
    } else {
        TrustError::Crypto
    }
}

/// What holds between the calls of a provision of the certificate that runs
/// on a store which held `before` when it began and holds `files` now.
pub open spec fn spec_certificate_invariant(
    flow: CertFlowView,
    request: RequestView,
    now: i64,
    before: Map<Seq<char>, Seq<u8>>,
    files: Map<Seq<char>, Seq<u8>>,
    pem: Seq<u8>,
) -> bool {
    let absent = !before.contains_key(flow.certificate_path);
    let readable = before.contains_key(flow.private_key_path);
    match flow.step {
        CertStep::Probing => files == before && request == (RequestView::Probe {
            path: flow.certificate_path,
        }),
        CertStep::Reading => {
            &&& files == before
            &&& absent
            &&& request == (RequestView::Read { path: flow.private_key_path })
        },
        CertStep::Issuing => {
            &&& files == before
            &&& absent
            &&& readable
            &&& request == (RequestView::Issue {
                private_key: before[flow.private_key_path],
                subject: spec_default_subject(),
                validity_days: DEFAULT_VALIDITY_DAYS,
            })
        },
        CertStep::Writing => {
            &&& files == before
            &&& absent
            &&& readable
            &&& spec_issued(before[flow.private_key_path], now, pem)
            &&& request == (RequestView::Create { path: flow.certificate_path, contents: pem })
        },
        _ => {
            &&& request == if let CertStep::Failed(error) = flow.step {
                RequestView::Abort { error }
            } else {
                RequestView::Done
            }
            &&& spec_certificate_ensured(
                flow,
                spec_certificate_outcome(flow),
                before,
                files,
                now,
                pem,
            )
        },
    }
}

/// The certificate that a provision has in hand after a reply: the one that
/// was just issued, or the one it had.
pub open spec fn spec_certificate_in_hand(flow: CertFlowView, reply: ReplyView, pem: Seq<u8>)
    -> Seq<u8> {
    match reply {
        ReplyView::Issued { pem: issued } => if flow.step is Issuing {
            issued
        } else {
            pem
        },
        _ => pem,
    }
}

/// The pair that a provision has in hand after a reply: the one that was
/// just generated, or the one it had.
pub open spec fn spec_pair_in_hand(flow: KeyPairFlowView, reply: ReplyView, pair: (
    Seq<u8>,
    Seq<u8>,
)) -> (Seq<u8>, Seq<u8>) {
    match reply {
        ReplyView::Generated { private_pem, public_pem } => if flow.step is Generating {
            (private_pem, public_pem)
        } else {
            pair
        },
        _ => pair,
    }
}

/// What holds between the calls of a provision of a key pair holds again
/// after the pending request was carried out on the store and the provision
/// took the reply.
pub proof fn lemma_provision_step(
    probed: bool,
    flow: KeyPairFlowView,
    request: RequestView,
    before: Map<Seq<char>, Seq<u8>>,
    files: Map<Seq<char>, Seq<u8>>,
    pair: (Seq<u8>, Seq<u8>),
    now: i64,
    reply: ReplyView,
    after: Map<Seq<char>, Seq<u8>>,
)
    requires
        flow.private_path != flow.public_path,
        spec_provision_invariant(probed, flow, request, before, files, pair.0, pair.1),
        !request.is_final(),
        spec_performs(files, request, now, after, reply),
    ensures
        spec_provision_invariant(
            probed,
            spec_key_step(flow, reply).0,
            spec_key_step(flow, reply).1,
            before,
            after,
            spec_pair_in_hand(flow, reply, pair).0,
            spec_pair_in_hand(flow, reply, pair).1,
        ),
{
}

/// What holds between the calls of a provision of the certificate holds
/// again after the pending request was carried out on the store and the
/// provision took the reply.
pub proof fn lemma_certificate_step(
    flow: CertFlowView,
    request: RequestView,
    before: Map<Seq<char>, Seq<u8>>,
    files: Map<Seq<char>, Seq<u8>>,
    pem: Seq<u8>,
    now: i64,
    reply: ReplyView,
    after: Map<Seq<char>, Seq<u8>>,
)
    requires
        spec_certificate_invariant(flow, request, now, before, files, pem),
        !request.is_final(),
        spec_performs(files, request, now, after, reply),
    ensures
        spec_certificate_invariant(
            spec_cert_step(flow, reply).0,
            spec_cert_step(flow, reply).1,
            now,
            before,
            after,
            spec_certificate_in_hand(flow, reply, pem),
        ),
{
}

/// Makes sure, at the time `now`, that the TLS certificate under `home_dir`
/// is in the store, and returns its path.
///
/// A certificate that is there is taken as it is. Otherwise the private key
/// at `private_path` is read, and a certificate for the default subject and
/// validity is issued for it and added with a safe write.
pub fn ensure_certificate(
    store: &mut TrustStore,
    home_dir: &str,
    private_path: &str,
    key_configured: bool,
    now: i64,
) -> (r: Result<String, TrustError>)
    ensures
        exists|pem: Seq<u8>|
            spec_certified(
                home_dir@,
                private_path@,
                key_configured,
                now,
                r,
                old(store)@,
                final(store)@,
                pem,
            ),
{
    let ghost before = store@;
    let ghost mut pem: Seq<u8> = Seq::empty();
    let (mut flow, mut request) = ensure_https_cert(home_dir, private_path, key_configured);
    let ghost begun = flow@;
    while !request.is_final()
        invariant
            flow@.certificate_path == begun.certificate_path,
            flow@.private_key_path == begun.private_key_path,
            flow@.key_configured == begun.key_configured,
            spec_certificate_invariant(flow@, request@, now, before, store@, pem),
        decreases flow@.remaining(),
    {
        match perform(store, request, now) {
            Some(reply) => {
                proof {
                    if let ReplyView::Issued { pem: issued } = reply@ {
                        if flow@.step is Issuing {
                            pem = issued;
                        }
                    }
                }
                let next = flow.step(reply);
                flow = next.0;
                request = next.1;
            },
            None => {
                request = Request::Done;
            },
        }
    }
    let r = match flow.step {
        CertStep::Failed(error) => Err(error),
        _ => Ok(flow.certificate_path),
    };
    proof {
        assert(spec_certified(
            home_dir@,
            private_path@,
            key_configured,
            now,
            r,
            before,
            store@,
            pem,
        ));
    }
    r
}

/// Making sure of a key pair twice is as good as once: unless the first call
/// found no key to be had, the second call goes well and leaves every file
/// in the store as the first call left it.
pub proof fn lemma_ensure_key_pair_idempotent(
    base: Seq<char>,
    algorithm: KeyAlgorithm,
    before: Map<Seq<char>, Seq<u8>>,
    first: Result<(String, String), TrustError>,
    between: Map<Seq<char>, Seq<u8>>,
    second: Result<(String, String), TrustError>,
    after: Map<Seq<char>, Seq<u8>>,
    first_pair: (Seq<u8>, Seq<u8>),
    second_pair: (Seq<u8>, Seq<u8>),
)
    requires
        spec_ensured(base, algorithm, first, before, between, first_pair.0, first_pair.1),
        spec_ensured(base, algorithm, second, between, after, second_pair.0, second_pair.1),
        first != Err::<(String, String), TrustError>(TrustError::Crypto),
    ensures
        second is Ok,
        after == between,
{
}

/// A pair is written private half first, and a failure at the second half
/// takes nothing back: when making sure of a pair fails with `AlreadyExists`,
/// the private key was not there before and is there now, every other file
/// is as it was, and the public key's path holds what it held.
pub proof fn lemma_pair_atomicity(
    base: Seq<char>,
    algorithm: KeyAlgorithm,
    before: Map<Seq<char>, Seq<u8>>,
    result: Result<(String, String), TrustError>,
    after: Map<Seq<char>, Seq<u8>>,
    pair: (Seq<u8>, Seq<u8>),
)
    requires
        spec_ensured(base, algorithm, result, before, after, pair.0, pair.1),
        result == Err::<(String, String), TrustError>(TrustError::AlreadyExists),
    ensures
        !before.contains_key(spec_private_path(base)),
        after == before.insert(spec_private_path(base), pair.0),
        after.contains_key(spec_private_path(base)),
        before.contains_key(spec_public_path(base)),
        after[spec_public_path(base)] == before[spec_public_path(base)],
{
    lemma_pair_paths_differ(base);
}

/// A pair that was made is a pair: when making sure of a pair goes well on a
/// store that did not hold the private key, the store holds afterwards the
/// two halves of one key of the role's algorithm, and every file that was
/// there is as it was.
pub proof fn lemma_pair_is_whole(
    base: Seq<char>,
    algorithm: KeyAlgorithm,
    before: Map<Seq<char>, Seq<u8>>,
    result: Result<(String, String), TrustError>,
    after: Map<Seq<char>, Seq<u8>>,
    pair: (Seq<u8>, Seq<u8>),
)
    requires
        spec_ensured(base, algorithm, result, before, after, pair.0, pair.1),
        !before.contains_key(spec_private_path(base)),
        result is Ok,
    ensures
        after.contains_key(spec_private_path(base)),
        after.contains_key(spec_public_path(base)),
        spec_is_pair(algorithm, after[spec_private_path(base)], after[spec_public_path(base)]),
        !before.contains_key(spec_public_path(base)),
{
    lemma_pair_paths_differ(base);
}

/// No provision of a key pair ever changes or removes a file: whatever the
/// store held before, it holds afterwards.
pub proof fn lemma_provision_keeps_files(
    base: Seq<char>,
    algorithm: KeyAlgorithm,
    before: Map<Seq<char>, Seq<u8>>,
    result: Result<(String, String), TrustError>,
    after: Map<Seq<char>, Seq<u8>>,
    pair: (Seq<u8>, Seq<u8>),
    path: Seq<char>,
)
    requires
        spec_ensured(base, algorithm, result, before, after, pair.0, pair.1) || spec_created(
            base,
            algorithm,
            result,
            before,
            after,
            pair.0,
            pair.1,
        ),
        before.contains_key(path),
    ensures
        after.contains_key(path),
        after[path] == before[path],
{
}

} // verus!
