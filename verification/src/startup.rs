//! Trust bootstrap run to its end on a trust store in memory.
//!
//! A run is its stages in sequence: the administrators' key pair, the TLS
//! key pair, the TLS certificate, the policy file. Each stage that the
//! configuration leaves open is the provision of its artifact, begun on the
//! store as the stage before left it; a stage that the configuration
//! settles does nothing. The first stage that fails ends the run with its
//! failure, and the store stays as that stage left it. What a run returns
//! and what it does to the store is stated here as exactly that sequence.

use vstd::prelude::*;
use crate::bootstrap::{
    lemma_start,
    lemma_step,
    spec_start,
    spec_step,
    Bootstrap,
    BootstrapConfig,
    BootstrapConfigView,
    BootstrapView,
    PolicyStep,
    Progress,
    ProgressView,
};
use crate::cert_store::{spec_cert_step, CertFlowView, CertStep};
use crate::driver::{perform, spec_performs};
use crate::error::TrustError;
use crate::key_store::{spec_key_step, KeyPairFlowView, KeyStep};
use crate::keys::{spec_is_pair, KeyAlgorithm};
use crate::layout::{lemma_names_differ, spec_auth_key_name, spec_join, spec_tls_key_name};
use crate::memory::TrustStore;
use crate::protocol::{ReplyView, Request, RequestView};
use crate::provision::{
    lemma_certificate_step,
    lemma_provision_step,
    spec_certificate_ensured,
    spec_certificate_in_hand,
    spec_certificate_invariant,
    spec_certificate_outcome,
    spec_issued,
    spec_outcome,
    spec_pair_ensured,
    spec_pair_in_hand,
    spec_provision_invariant,
};

verus! {

/// Whether the run has to make sure of the administrators' key pair.
pub open spec fn spec_wants_auth_key(config: BootstrapConfigView) -> bool {
    config.auth_public_key is None
}

/// Whether the run has to make sure of the TLS key pair.
pub open spec fn spec_wants_tls_key(config: BootstrapConfigView) -> bool {
    !config.insecure_http && config.tls_private_key is None
}

/// Whether the run has to make sure of the TLS certificate.
pub open spec fn spec_wants_certificate(config: BootstrapConfigView) -> bool {
    !config.insecure_http && config.tls_certificate is None
}

/// The path of the private key that the certificate is issued for: the
/// configured one, else the one under the home directory.
pub open spec fn spec_tls_key_path(config: BootstrapConfigView) -> Seq<char> {
    match config.tls_private_key {
        Some(path) => path,
        None => config.tls_private(),
    }
}

/// The provision of the administrators' key pair.
pub open spec fn spec_auth_flow(config: BootstrapConfigView) -> KeyPairFlowView {
    KeyPairFlowView::begin(
        spec_join(config.home, spec_auth_key_name()),
        KeyAlgorithm::Signing,
        KeyStep::Finished,
    )
}

/// The provision of the TLS key pair.
pub open spec fn spec_tls_flow(config: BootstrapConfigView) -> KeyPairFlowView {
    KeyPairFlowView::begin(
        spec_join(config.home, spec_tls_key_name()),
        KeyAlgorithm::Tls,
        KeyStep::Finished,
    )
}

/// The provision of the TLS certificate: for the configured key, whose
/// absence is a fault of the configuration, or else for the key under the
/// home directory.
pub open spec fn spec_certificate_flow(config: BootstrapConfigView) -> CertFlowView {
    CertFlowView::begin(
        config.home,
        spec_tls_key_path(config),
        config.tls_private_key is Some,
        CertStep::Finished,
    )
}

/// How one stage of a run ended: its outcome, the store as it left it, and
/// what the cryptographic library made for it, if anything: a key pair, or a
/// certificate in the first place of the two.
pub struct Stage {
    pub outcome: Result<(), TrustError>,
    pub files: Map<Seq<char>, Seq<u8>>,
    pub made: (Seq<u8>, Seq<u8>),
}

/// How the three stages that make keys and certificates ended.
pub struct Trail {
    pub auth: Stage,
    pub tls: Stage,
    pub certificate: Stage,
}

/// The stage of the administrators' key pair on a store that held `before`:
/// the provision of the pair where the configuration leaves the key open,
/// and nothing otherwise.
pub open spec fn spec_auth_stage(
    config: BootstrapConfigView,
    before: Map<Seq<char>, Seq<u8>>,
    stage: Stage,
) -> bool {
    if spec_wants_auth_key(config) {
        spec_pair_ensured(
            spec_auth_flow(config),
            stage.outcome,
            before,
            stage.files,
            stage.made.0,
            stage.made.1,
        )
    } else {
        stage.outcome is Ok && stage.files == before
    }
}

/// The stage of the TLS key pair on a store that held `before`: the
/// provision of the pair where TLS is on and the configuration leaves the
/// key open, and nothing otherwise.
pub open spec fn spec_tls_stage(
    config: BootstrapConfigView,
    before: Map<Seq<char>, Seq<u8>>,
    stage: Stage,
) -> bool {
    if spec_wants_tls_key(config) {
        spec_pair_ensured(
            spec_tls_flow(config),
            stage.outcome,
            before,
            stage.files,
            stage.made.0,
            stage.made.1,
        )
    } else {
        stage.outcome is Ok && stage.files == before
    }
}

/// The stage of the TLS certificate, at the time `now`, on a store that held
/// `before`: the provision of the certificate where TLS is on and the
/// configuration leaves the certificate open, and nothing otherwise.
pub open spec fn spec_certificate_stage(
    config: BootstrapConfigView,
    now: i64,
    before: Map<Seq<char>, Seq<u8>>,
    stage: Stage,
) -> bool {
    if spec_wants_certificate(config) {
        spec_certificate_ensured(
            spec_certificate_flow(config),
            stage.outcome,
            before,
            stage.files,
            now,
            stage.made.0,
        )
    } else {
        stage.outcome is Ok && stage.files == before
    }
}

/// The policy file that a run ends with on a store that holds `files`: the
/// built-in policy that allows every request where that was asked for;
/// otherwise the configured file where it is there, and else the built-in
/// policy that denies every request.
pub open spec fn spec_policy_path(config: BootstrapConfigView, files: Map<Seq<char>, Seq<u8>>)
    -> Seq<char> {
    if !config.allow_all && files.contains_key(config.policy_path) {
        config.policy_path
    } else {
        config.built_in_path()
    }
}

/// The store after the policy file of a run has been settled on a store that
/// held `files`: a policy file that is there is kept as it is, whatever it
/// holds; one that is not there is the built-in policy, and is added.
pub open spec fn spec_with_policy(config: BootstrapConfigView, files: Map<Seq<char>, Seq<u8>>)
    -> Map<Seq<char>, Seq<u8>> {
    let path = spec_policy_path(config, files);
    if files.contains_key(path) {
        files
    } else {
        files.insert(path, config.built_in_policy())
    }
}

/// The configuration as a run that went well resolves it, given the policy
/// file it ends with: a configured path stays; a path left open becomes that
/// of the artifact under the home directory, for TLS only where TLS is on.
pub open spec fn spec_resolution(config: BootstrapConfigView, policy_path: Seq<char>)
    -> BootstrapConfigView {
    BootstrapConfigView {
        auth_public_key: if spec_wants_auth_key(config) {
            Some(config.auth_public())
        } else {
            config.auth_public_key
        },
        tls_private_key: if spec_wants_tls_key(config) {
            Some(config.tls_private())
        } else {
            config.tls_private_key
        },
        tls_certificate: if spec_wants_certificate(config) {
            Some(config.tls_certificate_path())
        } else {
            config.tls_certificate
        },
        policy_path,
        ..config
    }
}

/// Whether a run for `config`, at the time `now`, on a store that held
/// `before`, may have come to `outcome` and left the store holding `after`,
/// its stages having ended as `trail` says.
///
/// The stages follow one another, each on the store that the stage before
/// left. The first that fails gives the run its failure, and the store is as
/// that stage left it. When none fails, the policy file is settled on the
/// store that the certificate's stage left, and the run returns the
/// resolved configuration.
pub open spec fn spec_run_of(
    config: BootstrapConfigView,
    before: Map<Seq<char>, Seq<u8>>,
    now: i64,
    outcome: Result<BootstrapConfigView, TrustError>,
    after: Map<Seq<char>, Seq<u8>>,
    trail: Trail,
) -> bool {
    &&& spec_auth_stage(config, before, trail.auth)
    &&& match trail.auth.outcome {
        Err(error) => outcome == Err::<BootstrapConfigView, TrustError>(error) && after
            == trail.auth.files,
        Ok(_) => {
            &&& spec_tls_stage(config, trail.auth.files, trail.tls)
            &&& match trail.tls.outcome {
                Err(error) => outcome == Err::<BootstrapConfigView, TrustError>(error) && after
                    == trail.tls.files,
                Ok(_) => {
                    &&& spec_certificate_stage(config, now, trail.tls.files, trail.certificate)
                    &&& match trail.certificate.outcome {
                        Err(error) => outcome == Err::<BootstrapConfigView, TrustError>(error)
                            && after == trail.certificate.files,
                        Ok(_) => {
                            &&& after == spec_with_policy(config, trail.certificate.files)
                            &&& outcome == Ok::<BootstrapConfigView, TrustError>(
                                spec_resolution(
                                    config,
                                    spec_policy_path(config, trail.certificate.files),
                                ),
                            )
                        },
                    }
                },
            }
        },
    }
}

/// Whether a run for `config`, at the time `now`, on a store that held
/// `before`, may have come to `outcome` and left the store holding `after`.
pub open spec fn spec_ran(
    config: BootstrapConfigView,
    before: Map<Seq<char>, Seq<u8>>,
    now: i64,
    outcome: Result<BootstrapConfigView, TrustError>,
    after: Map<Seq<char>, Seq<u8>>,
) -> bool {
    exists|trail: Trail| spec_run_of(config, before, now, outcome, after, trail)
}

/// How far the configuration of a run is resolved: the stages passed have
/// resolved their paths as the resolution says, the others are as
/// configured.
spec fn spec_tracks(config: BootstrapConfigView, run: BootstrapView) -> bool {
    let rank = run.progress.rank();
    let full = spec_resolution(config, run.config.policy_path);
    let now = run.config;
    &&& now.home == config.home
    &&& now.insecure_http == config.insecure_http
    &&& now.allow_all == config.allow_all
    &&& now.allow_all_policy == config.allow_all_policy
    &&& now.deny_all_policy == config.deny_all_policy
    &&& run.progress is Failed || {
        &&& now.auth_public_key == if rank >= 1 {
            full.auth_public_key
        } else {
            config.auth_public_key
        }
        &&& now.tls_private_key == if rank >= 2 {
            full.tls_private_key
        } else {
            config.tls_private_key
        }
        &&& now.tls_certificate == if rank >= 3 {
            full.tls_certificate
        } else {
            config.tls_certificate
        }
        &&& match run.progress {
            ProgressView::NeedsPolicyFile { step } => now.policy_path == if step is Configured {
                config.policy_path
            } else {
                config.built_in_path()
            },
            ProgressView::Ready => true,
            _ => now.policy_path == config.policy_path,
        }
    }
}

/// Where the stage in progress stands, and how the stages before it ended.
spec fn spec_stages(
    config: BootstrapConfigView,
    before: Map<Seq<char>, Seq<u8>>,
    now: i64,
    run: BootstrapView,
    request: RequestView,
    files: Map<Seq<char>, Seq<u8>>,
    trail: Trail,
) -> bool {
    let auth_done = spec_auth_stage(config, before, trail.auth) && trail.auth.outcome is Ok;
    let tls_done = auth_done && spec_tls_stage(config, trail.auth.files, trail.tls)
        && trail.tls.outcome is Ok;
    let all_done = tls_done && spec_certificate_stage(
        config,
        now,
        trail.tls.files,
        trail.certificate,
    ) && trail.certificate.outcome is Ok;
    let settled = trail.certificate.files;
    match run.progress {
        ProgressView::NeedsAuthKey { flow } => {
            &&& spec_wants_auth_key(config)
            &&& spec_provision_invariant(
                true,
                flow,
                request,
                before,
                files,
                trail.auth.made.0,
                trail.auth.made.1,
            )
        },
        ProgressView::NeedsTlsKey { flow } => {
            &&& auth_done
            &&& spec_wants_tls_key(config)
            &&& spec_provision_invariant(
                true,
                flow,
                request,
                trail.auth.files,
                files,
                trail.tls.made.0,
                trail.tls.made.1,
            )
        },
        ProgressView::NeedsCert { issue } => {
            &&& tls_done
            &&& spec_wants_certificate(config)
            &&& issue.key_configured == (config.tls_private_key is Some)
            &&& spec_certificate_invariant(
                issue,
                request,
                now,
                trail.tls.files,
                files,
                trail.certificate.made.0,
            )
        },
        ProgressView::NeedsPolicyFile { step } => {
            &&& all_done
            &&& files == settled
            &&& match step {
                PolicyStep::Configured => request == (RequestView::Probe {
                    path: config.policy_path,
                }),
                PolicyStep::BuiltIn => {
                    &&& request == (RequestView::Probe { path: config.built_in_path() })
                    &&& !config.allow_all ==> !settled.contains_key(config.policy_path)
                },
                PolicyStep::Writing => {
                    &&& request == (RequestView::Create {
                        path: config.built_in_path(),
                        contents: config.built_in_policy(),
                    })
                    &&& !settled.contains_key(config.built_in_path())
                    &&& !config.allow_all ==> !settled.contains_key(config.policy_path)
                },
            }
        },
        ProgressView::Ready => {
            &&& all_done
            &&& request is Done
            &&& files == spec_with_policy(config, settled)
            &&& run.config.policy_path == spec_policy_path(config, settled)
        },
        ProgressView::Failed { error } => {
            &&& request == (RequestView::Abort { error })
            &&& spec_run_of(
                config,
                before,
                now,
                Err::<BootstrapConfigView, TrustError>(error),
                files,
                trail,
            )
        },
    }
}

/// What holds between the steps of a run for `config` on a store that held
/// `before` when the run began and holds `files` now.
spec fn spec_run_invariant(
    config: BootstrapConfigView,
    before: Map<Seq<char>, Seq<u8>>,
    now: i64,
    run: BootstrapView,
    request: RequestView,
    files: Map<Seq<char>, Seq<u8>>,
    trail: Trail,
) -> bool {
    &&& run.wf()
    &&& spec_tracks(config, run)
    &&& spec_stages(config, before, now, run, request, files, trail)
}

/// A stage that has not begun, on a store that holds `files`.
spec fn spec_idle(files: Map<Seq<char>, Seq<u8>>) -> Stage {
    Stage { outcome: Ok(()), files, made: (Seq::empty(), Seq::empty()) }
}

/// The trail after the stage in progress took a reply and the store came to
/// hold `after`: the stage in progress is brought up to date, and the stages
/// that follow it have not begun.
spec fn spec_next_trail(
    trail: Trail,
    run: BootstrapView,
    reply: ReplyView,
    after: Map<Seq<char>, Seq<u8>>,
) -> Trail {
    match run.progress {
        ProgressView::NeedsAuthKey { flow } => Trail {
            auth: Stage {
                outcome: spec_outcome(spec_key_step(flow, reply).0),
                files: after,
                made: spec_pair_in_hand(flow, reply, trail.auth.made),
            },
            tls: spec_idle(after),
            certificate: spec_idle(after),
        },
        ProgressView::NeedsTlsKey { flow } => Trail {
            auth: trail.auth,
            tls: Stage {
                outcome: spec_outcome(spec_key_step(flow, reply).0),
                files: after,
                made: spec_pair_in_hand(flow, reply, trail.tls.made),
            },
            certificate: spec_idle(after),
        },
        ProgressView::NeedsCert { issue } => Trail {
            auth: trail.auth,
            tls: trail.tls,
            certificate: Stage {
                outcome: spec_certificate_outcome(spec_cert_step(issue, reply).0),
                files: after,
                made: (
                    spec_certificate_in_hand(issue, reply, trail.certificate.made.0),
                    Seq::empty(),
                ),
            },
        },
        _ => trail,
    }
}

/// The trail of a run that has not begun.
spec fn spec_first_trail(before: Map<Seq<char>, Seq<u8>>) -> Trail {
    Trail { auth: spec_idle(before), tls: spec_idle(before), certificate: spec_idle(before) }
}

/// The invariant of a run holds when it starts.
proof fn lemma_run_starts(config: BootstrapConfigView, before: Map<Seq<char>, Seq<u8>>, now: i64)
    ensures
        spec_run_invariant(
            config,
            before,
            now,
            spec_start(config).0,
            spec_start(config).1,
            before,
            spec_first_trail(before),
        ),
{
    lemma_start(config);
}

/// The invariant of a run holds again after each request that was carried
/// out on the store and each step that took the reply.
proof fn lemma_run_goes_on(
    config: BootstrapConfigView,
    before: Map<Seq<char>, Seq<u8>>,
    now: i64,
    run: BootstrapView,
    request: RequestView,
    files: Map<Seq<char>, Seq<u8>>,
    trail: Trail,
    reply: ReplyView,
    after: Map<Seq<char>, Seq<u8>>,
)
    requires
        spec_run_invariant(config, before, now, run, request, files, trail),
        !request.is_final(),
        spec_performs(files, request, now, after, reply),
    ensures
        spec_run_invariant(
            config,
            before,
            now,
            spec_step(run, reply).0,
            spec_step(run, reply).1,
            after,
            spec_next_trail(trail, run, reply, after),
        ),
{
    lemma_step(run, reply);
    lemma_names_differ(config.home);
    match run.progress {
        ProgressView::NeedsAuthKey { flow } => {
            lemma_provision_step(
                true,
                flow,
                request,
                before,
                files,
                trail.auth.made,
                now,
                reply,
                after,
            );
        },
        ProgressView::NeedsTlsKey { flow } => {
            lemma_provision_step(
                true,
                flow,
                request,
                trail.auth.files,
                files,
                trail.tls.made,
                now,
                reply,
                after,
            );
        },
        ProgressView::NeedsCert { issue } => {
            lemma_certificate_step(
                issue,
                request,
                trail.tls.files,
                files,
                trail.certificate.made.0,
                now,
                reply,
                after,
            );
        },
        _ => {},
    }
}

/// The view of the outcome of a run.
pub open spec fn outcome_view(outcome: Result<BootstrapConfig, TrustError>) -> Result<
    BootstrapConfigView,
    TrustError,
> {
    match outcome {
        Ok(resolved) => Ok(resolved@),
        Err(error) => Err(error),
    }
}

/// Runs trust bootstrap for `config` on the store in memory, at the time
/// `now` in seconds since the Unix epoch, and returns the configuration with
/// every path resolved, or the first failure.
///
/// The run is its stages in sequence, as `spec_run_of` says: the provision
/// of the administrators' key pair, of the TLS key pair and of the TLS
/// certificate, each only where the configuration leaves it open, and then
/// the policy file. No file that is there is changed.
pub fn trustee_run(store: &mut TrustStore, config: BootstrapConfig, now: i64) -> (r: Result<
    BootstrapConfig,
    TrustError,
>)
    ensures
        spec_ran(config@, old(store)@, now, outcome_view(r), final(store)@),
{
    let ghost given = config@;
    let ghost before = store@;
    let ghost mut trail = spec_first_trail(before);
    let (mut run, mut request) = Bootstrap::start(config);
    proof {
        lemma_run_starts(given, before, now);
    }
    while !request.is_final()
        invariant
            spec_run_invariant(given, before, now, run@, request@, store@, trail),
        decreases run@.progress.remaining(),
    {
        let ghost asked = request@;
        let ghost held = store@;
        match perform(store, request, now) {
            Some(reply) => {
                proof {
                    lemma_run_goes_on(given, before, now, run@, asked, held, trail, reply@, store@);
                    lemma_step(run@, reply@);
                    trail = spec_next_trail(trail, run@, reply@, store@);
                }
                let next = run.step(reply);
                run = next.0;
                request = next.1;
            },
            None => {
                request = Request::Done;
            },
        }
    }
    let r = match run.progress {
        Progress::Failed { error } => Err(error),
        _ => Ok(run.config),
    };
    proof {
        assert(spec_run_of(given, before, now, outcome_view(r), store@, trail));
    }
    r
}

/// Whether the store holds every artifact that a run for `config` would
/// otherwise make.
pub open spec fn spec_complete(config: BootstrapConfigView, files: Map<Seq<char>, Seq<u8>>)
    -> bool {
    &&& spec_wants_auth_key(config) ==> files.contains_key(config.auth_private())
    &&& spec_wants_tls_key(config) ==> files.contains_key(config.tls_private())
    &&& spec_wants_certificate(config) ==> files.contains_key(config.tls_certificate_path())
}

/// Whether a run for `config` may add a file at `path`: the path is that of
/// a key or certificate that the configuration leaves open, or that of the
/// built-in policy.
pub open spec fn spec_may_add(config: BootstrapConfigView, path: Seq<char>) -> bool {
    ||| spec_wants_auth_key(config) && (path == config.auth_private() || path
        == config.auth_public())
    ||| spec_wants_tls_key(config) && (path == config.tls_private() || path == config.tls_public())
    ||| spec_wants_certificate(config) && path == config.tls_certificate_path()
    ||| path == config.built_in_path()
}

/// Whether the key pair at the two paths, if it was not there, is a pair:
/// where the store did not hold the private key before, it holds now the two
/// halves of one key of the role's algorithm.
pub open spec fn spec_pair_made(
    private_path: Seq<char>,
    public_path: Seq<char>,
    algorithm: KeyAlgorithm,
    before: Map<Seq<char>, Seq<u8>>,
    after: Map<Seq<char>, Seq<u8>>,
) -> bool {
    !before.contains_key(private_path) ==> {
        &&& after.contains_key(private_path)
        &&& after.contains_key(public_path)
        &&& spec_is_pair(algorithm, after[private_path], after[public_path])
    }
}

/// No run changes or removes a file: whatever the store held before, it
/// holds afterwards, however the run ended.
pub proof fn lemma_run_keeps_files(
    config: BootstrapConfigView,
    before: Map<Seq<char>, Seq<u8>>,
    now: i64,
    outcome: Result<BootstrapConfigView, TrustError>,
    after: Map<Seq<char>, Seq<u8>>,
    path: Seq<char>,
)
    requires
        spec_ran(config, before, now, outcome, after),
        before.contains_key(path),
    ensures
        after.contains_key(path),
        after[path] == before[path],
{
    let trail = choose|trail: Trail| spec_run_of(config, before, now, outcome, after, trail);
    lemma_names_differ(config.home);
}

/// A run adds nothing but what it was to make: every file that is there
/// afterwards and was not there before is a key or certificate that the
/// configuration leaves open, or the built-in policy. Without TLS no TLS key
/// or certificate appears; a configured key has no pair made for it.
pub proof fn lemma_run_adds_only_what_it_wants(
    config: BootstrapConfigView,
    before: Map<Seq<char>, Seq<u8>>,
    now: i64,
    outcome: Result<BootstrapConfigView, TrustError>,
    after: Map<Seq<char>, Seq<u8>>,
    path: Seq<char>,
)
    requires
        spec_ran(config, before, now, outcome, after),
        after.contains_key(path),
        !before.contains_key(path),
    ensures
        spec_may_add(config, path),
        config.insecure_http ==> path != config.tls_private() && path != config.tls_public()
            && path != config.tls_certificate_path(),
        config.auth_public_key is Some ==> path != config.auth_private() && path
            != config.auth_public(),
        config.tls_private_key is Some ==> path != config.tls_private() && path
            != config.tls_public(),
{
    let trail = choose|trail: Trail| spec_run_of(config, before, now, outcome, after, trail);
    lemma_names_differ(config.home);
}

/// On a store that holds every artifact already, a run goes well and every
/// stage is a no-op: nothing is added but a policy file that was not there,
/// and a policy file that was there holds what it held.
pub proof fn lemma_complete_store_runs_well(
    config: BootstrapConfigView,
    before: Map<Seq<char>, Seq<u8>>,
    now: i64,
    outcome: Result<BootstrapConfigView, TrustError>,
    after: Map<Seq<char>, Seq<u8>>,
)
    requires
        spec_ran(config, before, now, outcome, after),
        spec_complete(config, before),
    ensures
        outcome == Ok::<BootstrapConfigView, TrustError>(
            spec_resolution(config, spec_policy_path(config, before)),
        ),
        after == spec_with_policy(config, before),
        before.contains_key(spec_policy_path(config, before)) ==> after == before,
{
    let trail = choose|trail: Trail| spec_run_of(config, before, now, outcome, after, trail);
}

/// A run that went well leaves nothing for a second run to do: on the store
/// that the first run left, a run for the same configuration goes well,
/// resolves the configuration as the first did, and leaves the store as it
/// found it.
pub proof fn lemma_second_run_changes_nothing(
    config: BootstrapConfigView,
    before: Map<Seq<char>, Seq<u8>>,
    earlier: i64,
    first: Result<BootstrapConfigView, TrustError>,
    between: Map<Seq<char>, Seq<u8>>,
    later: i64,
    second: Result<BootstrapConfigView, TrustError>,
    after: Map<Seq<char>, Seq<u8>>,
)
    requires
        spec_ran(config, before, earlier, first, between),
        spec_ran(config, between, later, second, after),
        first is Ok,
    ensures
        second == first,
        after == between,
{
    let trail = choose|trail: Trail| spec_run_of(config, before, earlier, first, between, trail);
    lemma_names_differ(config.home);
    assert(spec_complete(config, between));
    lemma_complete_store_runs_well(config, between, later, second, after);
}

/// A configured TLS key that is not there fails the run before anything is
/// made for TLS: where the administrators' key is settled, TLS is on, the
/// certificate is neither configured nor there, and the configured key's
/// file is missing, the run fails with `Config` and the store is as it was.
pub proof fn lemma_missing_configured_key(
    config: BootstrapConfigView,
    before: Map<Seq<char>, Seq<u8>>,
    now: i64,
    outcome: Result<BootstrapConfigView, TrustError>,
    after: Map<Seq<char>, Seq<u8>>,
)
    requires
        spec_ran(config, before, now, outcome, after),
        !spec_wants_auth_key(config) || before.contains_key(config.auth_private()),
        !config.insecure_http,
        config.tls_private_key matches Some(path) && !before.contains_key(path),
        config.tls_certificate is None,
        !before.contains_key(config.tls_certificate_path()),
    ensures
        outcome == Err::<BootstrapConfigView, TrustError>(TrustError::Config),
        after == before,
{
    let trail = choose|trail: Trail| spec_run_of(config, before, now, outcome, after, trail);
}

/// A failure takes nothing back. On a store that holds of all the keys only
/// the TLS public key, a run that is to make both pairs fails; and where it
/// fails with `AlreadyExists`, the administrators' pair that it made is
/// there and is a pair, the TLS private key that it wrote is there, the TLS
/// public key holds what it held, and neither a certificate nor a policy
/// file was added.
pub proof fn lemma_half_pair_fails_the_run(
    config: BootstrapConfigView,
    before: Map<Seq<char>, Seq<u8>>,
    now: i64,
    outcome: Result<BootstrapConfigView, TrustError>,
    after: Map<Seq<char>, Seq<u8>>,
)
    requires
        spec_ran(config, before, now, outcome, after),
        spec_wants_auth_key(config),
        spec_wants_tls_key(config),
        !before.contains_key(config.auth_private()),
        !before.contains_key(config.auth_public()),
        !before.contains_key(config.tls_private()),
        before.contains_key(config.tls_public()),
    ensures
        outcome == Err::<BootstrapConfigView, TrustError>(TrustError::AlreadyExists) || outcome
            == Err::<BootstrapConfigView, TrustError>(TrustError::Crypto),
        outcome == Err::<BootstrapConfigView, TrustError>(TrustError::AlreadyExists) ==> {
            &&& spec_pair_made(
                config.auth_private(),
                config.auth_public(),
                KeyAlgorithm::Signing,
                before,
                after,
            )
            &&& after.contains_key(config.tls_private())
            &&& after[config.tls_public()] == before[config.tls_public()]
            &&& !before.contains_key(config.tls_certificate_path()) ==> !after.contains_key(
                config.tls_certificate_path(),
            )
            &&& !before.contains_key(config.built_in_path()) ==> !after.contains_key(
                config.built_in_path(),
            )
        },
{
    let trail = choose|trail: Trail| spec_run_of(config, before, now, outcome, after, trail);
    lemma_names_differ(config.home);
}

/// What a run that went well had to make is sound: a key pair that was not
/// there is the two halves of one key of its role's algorithm, and a
/// certificate that was not there is the one that the service issues at the
/// time `now` for the TLS key, which is there.
pub proof fn lemma_run_makes_sound_artifacts(
    config: BootstrapConfigView,
    before: Map<Seq<char>, Seq<u8>>,
    now: i64,
    outcome: Result<BootstrapConfigView, TrustError>,
    after: Map<Seq<char>, Seq<u8>>,
)
    requires
        spec_ran(config, before, now, outcome, after),
        outcome is Ok,
    ensures
        spec_complete(config, after),
        after.contains_key(outcome->Ok_0.policy_path),
        outcome->Ok_0.resolved(),
        spec_wants_auth_key(config) ==> spec_pair_made(
            config.auth_private(),
            config.auth_public(),
            KeyAlgorithm::Signing,
            before,
            after,
        ),
        spec_wants_tls_key(config) ==> spec_pair_made(
            config.tls_private(),
            config.tls_public(),
            KeyAlgorithm::Tls,
            before,
            after,
        ),
        spec_wants_certificate(config) && !before.contains_key(config.tls_certificate_path())
            ==> {
            &&& after.contains_key(spec_tls_key_path(config))
            &&& after.contains_key(config.tls_certificate_path())
            &&& spec_issued(
                after[spec_tls_key_path(config)],
                now,
                after[config.tls_certificate_path()],
            )
        },
{
    let trail = choose|trail: Trail| spec_run_of(config, before, now, outcome, after, trail);
    lemma_names_differ(config.home);
}

} // verus!
