//! The sequence that establishes trust when the service starts.
//!
//! One artifact after the other is made sure of: the administrators' key
//! pair, then, where TLS is on, the TLS key pair and the TLS certificate,
//! then the policy file. An artifact that the configuration names is taken
//! from there; one that is in the trust store is taken as it is, whatever it
//! holds; any other is made and written with a safe write. No step of a run
//! overwrites a file. The first failure ends the run. Nothing that an
//! earlier stage made is taken back: a second run finds it and goes on from
//! there.
//!
//! A run rests only where it waits for a reply: at `NeedsAuthKey`,
//! `NeedsTlsKey`, `NeedsCert` and `NeedsPolicyFile`, and at its end, `Ready`
//! or `Failed`. Once an artifact is known, what comes next is decided at
//! once, in the step that learnt of it: after the administrators' key by
//! `spec_has_auth_key`, after the TLS key by `spec_has_tls_key`, after the
//! certificate by `spec_has_cert`.

use vstd::prelude::*;
use crate::cert_store::{ensure_https_cert, CertFlow, CertFlowView, CertStep};
use crate::decode::text_view;
use crate::error::TrustError;
use crate::key_store::{
    ensure_auth_key_pair,
    ensure_https_key_pair,
    KeyPairFlow,
    KeyPairFlowView,
    KeyStep,
};
use crate::keys::KeyAlgorithm;
use crate::bytes::copy_bytes;
use crate::cert_store::spec_cert_step;
use crate::key_store::spec_key_step;
use crate::layout::{
    join,
    spec_allow_all_name,
    spec_auth_key_name,
    spec_certificate_name,
    spec_deny_all_name,
    spec_join,
    spec_private_path,
    spec_public_path,
    spec_tls_key_name,
};
use crate::protocol::{Reply, ReplyView, Request, RequestView};

verus! {

/// What the service is configured with, as far as trust bootstrap reads or
/// resolves it. The run fills in the paths that were left open.
#[derive(Debug)]
pub struct BootstrapConfig {
    /// The home directory of the trust store.
    pub home: String,
    /// The public key that authenticates administrators, if configured.
    pub auth_public_key: Option<String>,
    /// Whether the service runs without TLS.
    pub insecure_http: bool,
    /// The private key that serves TLS, if configured.
    pub tls_private_key: Option<String>,
    /// The certificate that serves TLS, if configured.
    pub tls_certificate: Option<String>,
    /// The policy file.
    pub policy_path: String,
    /// Whether to install and use the policy that allows every request.
    pub allow_all: bool,
    /// The policy that allows every request.
    pub allow_all_policy: Vec<u8>,
    /// The policy that denies every request.
    pub deny_all_policy: Vec<u8>,
}

/// A configuration with its paths and contents as sequences.
pub struct BootstrapConfigView {
    pub home: Seq<char>,
    pub auth_public_key: Option<Seq<char>>,
    pub insecure_http: bool,
    pub tls_private_key: Option<Seq<char>>,
    pub tls_certificate: Option<Seq<char>>,
    pub policy_path: Seq<char>,
    pub allow_all: bool,
    pub allow_all_policy: Seq<u8>,
    pub deny_all_policy: Seq<u8>,
}

impl BootstrapConfigView {
    /// The path of the administrators' private key under the home directory.
    pub open spec fn auth_private(self) -> Seq<char> {
        spec_private_path(spec_join(self.home, spec_auth_key_name()))
    }

    /// The path of the administrators' public key under the home directory.
    pub open spec fn auth_public(self) -> Seq<char> {
        spec_public_path(spec_join(self.home, spec_auth_key_name()))
    }

    /// The path of the TLS private key under the home directory.
    pub open spec fn tls_private(self) -> Seq<char> {
        spec_private_path(spec_join(self.home, spec_tls_key_name()))
    }

    /// The path of the TLS public key under the home directory.
    pub open spec fn tls_public(self) -> Seq<char> {
        spec_public_path(spec_join(self.home, spec_tls_key_name()))
    }

    /// The path of the TLS certificate under the home directory.
    pub open spec fn tls_certificate_path(self) -> Seq<char> {
        spec_join(self.home, spec_certificate_name())
    }

    /// The path of the policy that allows every request.
    pub open spec fn allow_all_path(self) -> Seq<char> {
        spec_join(self.home, spec_allow_all_name())
    }

    /// The path of the policy that denies every request.
    pub open spec fn deny_all_path(self) -> Seq<char> {
        spec_join(self.home, spec_deny_all_name())
    }

    /// The path of the built-in policy that the run falls back on: the one
    /// that allows every request where that was asked for, else the one that
    /// denies every request.
    pub open spec fn built_in_path(self) -> Seq<char> {
        if self.allow_all {
            self.allow_all_path()
        } else {
            self.deny_all_path()
        }
    }

    /// What the built-in policy holds.
    pub open spec fn built_in_policy(self) -> Seq<u8> {
        if self.allow_all {
            self.allow_all_policy
        } else {
            self.deny_all_policy
        }
    }
}

impl View for BootstrapConfig {
    type V = BootstrapConfigView;

    open spec fn view(&self) -> BootstrapConfigView {
        BootstrapConfigView {
            home: self.home@,
            auth_public_key: text_view(self.auth_public_key),
            insecure_http: self.insecure_http,
            tls_private_key: text_view(self.tls_private_key),
            tls_certificate: text_view(self.tls_certificate),
            policy_path: self.policy_path@,
            allow_all: self.allow_all,
            allow_all_policy: self.allow_all_policy@,
            deny_all_policy: self.deny_all_policy@,
        }
    }
}

/// How far the policy file is settled.
#[derive(Clone, Copy, Debug, PartialEq, Eq, Structural)]
pub enum PolicyStep {
    /// Asked whether the configured policy file is there.
    Configured,
    /// Asked whether the built-in policy is there, under the home directory.
    BuiltIn,
    /// Asked to create the built-in policy.
    Writing,
}

/// Where a run stands.
#[derive(Debug)]
pub enum Progress {
    /// The administrators' key pair is being made sure of.
    NeedsAuthKey { flow: KeyPairFlow },
    /// The TLS key pair is being made sure of.
    NeedsTlsKey { flow: KeyPairFlow },
    /// The TLS certificate is being made sure of.
    NeedsCert { issue: CertFlow },
    /// The policy file is being made sure of.
    NeedsPolicyFile { step: PolicyStep },
    /// Every path is resolved.
    Ready,
    /// The run has failed.
    Failed { error: TrustError },
}

/// Where a run stands, with its paths and contents as sequences.
pub enum ProgressView {
    NeedsAuthKey { flow: KeyPairFlowView },
    NeedsTlsKey { flow: KeyPairFlowView },
    NeedsCert { issue: CertFlowView },
    NeedsPolicyFile { step: PolicyStep },
    Ready,
    Failed { error: TrustError },
}

impl View for Progress {
    type V = ProgressView;

    open spec fn view(&self) -> ProgressView {
        match *self {
            Progress::NeedsAuthKey { flow } => ProgressView::NeedsAuthKey { flow: flow@ },
            Progress::NeedsTlsKey { flow } => ProgressView::NeedsTlsKey { flow: flow@ },
            Progress::NeedsCert { issue } => ProgressView::NeedsCert { issue: issue@ },
            Progress::NeedsPolicyFile { step } => ProgressView::NeedsPolicyFile { step },
            Progress::Ready => ProgressView::Ready,
            Progress::Failed { error } => ProgressView::Failed { error },
        }
    }
}

/// A run of trust bootstrap: the configuration as far as it is resolved, and
/// where the run stands.
#[derive(Debug)]
pub struct Bootstrap {
    pub config: BootstrapConfig,
    pub progress: Progress,
}

/// A run, with its paths and contents as sequences.
pub struct BootstrapView {
    pub config: BootstrapConfigView,
    pub progress: ProgressView,
}

impl View for Bootstrap {
    type V = BootstrapView;

    open spec fn view(&self) -> BootstrapView {
        BootstrapView { config: self.config@, progress: self.progress@ }
    }
}

/// The run that asks whether the built-in policy is there, which from now on
/// is the policy file.
pub open spec fn spec_built_in_policy(config: BootstrapConfigView) -> (
    BootstrapView,
    RequestView,
) {
    let path = config.built_in_path();
    (
        BootstrapView {
            config: BootstrapConfigView { policy_path: path, ..config },
            progress: ProgressView::NeedsPolicyFile { step: PolicyStep::BuiltIn },
        },
        RequestView::Probe { path },
    )
}

/// The run that stands at the policy file. With the policy that allows
/// every request, the run asks whether that policy is there under the home
/// directory; otherwise it asks whether the configured policy file is there.
pub open spec fn spec_needs_policy(config: BootstrapConfigView) -> (BootstrapView, RequestView) {
    if config.allow_all {
        spec_built_in_policy(config)
    } else {
        (
            BootstrapView {
                config,
                progress: ProgressView::NeedsPolicyFile { step: PolicyStep::Configured },
            },
            RequestView::Probe { path: config.policy_path },
        )
    }
}

/// Where a run that stands at the policy file goes on a reply.
///
/// A policy file that is there is kept as it is, whatever it holds, and the
/// run is ready. A configured file that is not there gives way to the
/// built-in policy that denies every request. A built-in policy that is not
/// there is created with a safe write.
pub open spec fn spec_policy_step(
    config: BootstrapConfigView,
    step: PolicyStep,
    reply: ReplyView,
) -> (BootstrapView, RequestView) {
    let ready = (BootstrapView { config, progress: ProgressView::Ready }, RequestView::Done);
    match (step, reply) {
        (_, ReplyView::Failed { error }) => spec_failed(config, error),
        (PolicyStep::Configured, ReplyView::Exists { present }) => if present {
            ready
        } else {
            spec_built_in_policy(config)
        },
        (PolicyStep::BuiltIn, ReplyView::Exists { present }) => if present {
            ready
        } else {
            (
                BootstrapView {
                    config,
                    progress: ProgressView::NeedsPolicyFile { step: PolicyStep::Writing },
                },
                RequestView::Create { path: config.policy_path, contents: config.built_in_policy() },
            )
        },
        (PolicyStep::Writing, ReplyView::Created) => ready,
        _ => spec_failed(config, TrustError::Io),
    }
}

/// The run once the TLS certificate is known: it goes on to the policy
/// file.
pub open spec fn spec_has_cert(config: BootstrapConfigView) -> (BootstrapView, RequestView) {
    spec_needs_policy(config)
}

/// The run once the TLS key is known: a configured certificate is taken
/// from the configuration; otherwise the certificate is made sure of.
pub open spec fn spec_has_tls_key(config: BootstrapConfigView, key_configured: bool) -> (
    BootstrapView,
    RequestView,
) {
    match (config.tls_private_key, config.tls_certificate) {
        (Some(private_path), None) => (
            BootstrapView {
                config,
                progress: ProgressView::NeedsCert {
                    issue: CertFlowView::begin(
                        config.home,
                        private_path,
                        key_configured,
                        CertStep::Probing,
                    ),
                },
            },
            RequestView::Probe { path: config.tls_certificate_path() },
        ),
        _ => spec_has_cert(config),
    }
}

/// The run once the administrators' key is known: without TLS the run goes
/// on to the policy file; a configured TLS key is taken from the
/// configuration; otherwise the TLS key pair is made sure of.
pub open spec fn spec_has_auth_key(config: BootstrapConfigView) -> (BootstrapView, RequestView) {
    if config.insecure_http {
        spec_needs_policy(config)
    } else if config.tls_private_key is Some {
        spec_has_tls_key(config, true)
    } else {
        let base = spec_join(config.home, spec_tls_key_name());
        (
            BootstrapView {
                config,
                progress: ProgressView::NeedsTlsKey {
                    flow: KeyPairFlowView::begin(base, KeyAlgorithm::Tls, KeyStep::Probing),
                },
            },
            RequestView::Probe { path: config.tls_private() },
        )
    }
}

/// The run at its start: a configured administrators' key is taken from the
/// configuration; otherwise the key pair is made sure of.
pub open spec fn spec_start(config: BootstrapConfigView) -> (BootstrapView, RequestView) {
    if config.auth_public_key is Some {
        spec_has_auth_key(config)
    } else {
        let base = spec_join(config.home, spec_auth_key_name());
        (
            BootstrapView {
                config,
                progress: ProgressView::NeedsAuthKey {
                    flow: KeyPairFlowView::begin(base, KeyAlgorithm::Signing, KeyStep::Probing),
                },
            },
            RequestView::Probe { path: config.auth_private() },
        )
    }
}

/// The run that has failed.
pub open spec fn spec_failed(config: BootstrapConfigView, error: TrustError) -> (
    BootstrapView,
    RequestView,
) {
    (
        BootstrapView { config, progress: ProgressView::Failed { error } },
        RequestView::Abort { error },
    )
}

/// Where a run goes on a reply, and what it asks next.
///
/// While an artifact is being made sure of, the reply goes to its
/// provision. A provision that ends well resolves the artifact's path and
/// lets the run go on; one that fails makes the run fail with its failure.
/// At the policy file the reply goes to `spec_policy_step`. A run that is
/// ready or has failed stays as it is.
pub open spec fn spec_step(run: BootstrapView, reply: ReplyView) -> (BootstrapView, RequestView) {
    let config = run.config;
    match run.progress {
        ProgressView::NeedsAuthKey { flow } => {
            let (next, request) = spec_key_step(flow, reply);
            match request {
                RequestView::Done => spec_has_auth_key(
                    BootstrapConfigView { auth_public_key: Some(next.public_path), ..config },
                ),
                RequestView::Abort { error } => spec_failed(config, error),
                _ => (
                    BootstrapView { config, progress: ProgressView::NeedsAuthKey { flow: next } },
                    request,
                ),
            }
        },
        ProgressView::NeedsTlsKey { flow } => {
            let (next, request) = spec_key_step(flow, reply);
            match request {
                RequestView::Done => spec_has_tls_key(
                    BootstrapConfigView { tls_private_key: Some(next.private_path), ..config },
                    false,
                ),
                RequestView::Abort { error } => spec_failed(config, error),
                _ => (
                    BootstrapView { config, progress: ProgressView::NeedsTlsKey { flow: next } },
                    request,
                ),
            }
        },
        ProgressView::NeedsCert { issue } => {
            let (next, request) = spec_cert_step(issue, reply);
            match request {
                RequestView::Done => spec_has_cert(
                    BootstrapConfigView { tls_certificate: Some(next.certificate_path), ..config },
                ),
                RequestView::Abort { error } => spec_failed(config, error),
                _ => (
                    BootstrapView { config, progress: ProgressView::NeedsCert { issue: next } },
                    request,
                ),
            }
        },
        ProgressView::NeedsPolicyFile { step } => spec_policy_step(config, step, reply),
        ProgressView::Ready => (run, RequestView::Done),
        ProgressView::Failed { error } => (run, RequestView::Abort { error }),
    }
}

/// Asks whether the built-in policy is there.
fn built_in_policy(config: BootstrapConfig) -> (r: (Bootstrap, Request))
    ensures
        (r.0@, r.1@) == spec_built_in_policy(config@),
{
    let path = if config.allow_all {
        join(config.home.as_str(), "allow_all.rego")
    } else {
        join(config.home.as_str(), "deny_all.rego")
    };
    let request = Request::Probe { path: path.clone() };
    let config = BootstrapConfig { policy_path: path, ..config };
    (
        Bootstrap { config, progress: Progress::NeedsPolicyFile { step: PolicyStep::BuiltIn } },
        request,
    )
}

/// Goes on to the policy file.
fn needs_policy(config: BootstrapConfig) -> (r: (Bootstrap, Request))
    ensures
        (r.0@, r.1@) == spec_needs_policy(config@),
{
    if config.allow_all {
        built_in_policy(config)
    } else {
        let request = Request::Probe { path: config.policy_path.clone() };
        (
            Bootstrap {
                config,
                progress: Progress::NeedsPolicyFile { step: PolicyStep::Configured },
            },
            request,
        )
    }
}

/// Goes on at the policy file.
fn policy_step(config: BootstrapConfig, step: PolicyStep, reply: Reply) -> (r: (
    Bootstrap,
    Request,
))
    ensures
        (r.0@, r.1@) == spec_policy_step(config@, step, reply@),
{
    match reply {
        Reply::Failed { error } => failed(config, error),
        Reply::Exists { present } => match step {
            PolicyStep::Configured => if present {
                (Bootstrap { config, progress: Progress::Ready }, Request::Done)
            } else {
                built_in_policy(config)
            },
            PolicyStep::BuiltIn => if present {
                (Bootstrap { config, progress: Progress::Ready }, Request::Done)
            } else {
                let contents = if config.allow_all {
                    copy_bytes(config.allow_all_policy.as_slice())
                } else {
                    copy_bytes(config.deny_all_policy.as_slice())
                };
                let request = Request::Create { path: config.policy_path.clone(), contents };
                (
                    Bootstrap {
                        config,
                        progress: Progress::NeedsPolicyFile { step: PolicyStep::Writing },
                    },
                    request,
                )
            },
            PolicyStep::Writing => failed(config, TrustError::Io),
        },
        Reply::Created => match step {
            PolicyStep::Writing => (
                Bootstrap { config, progress: Progress::Ready },
                Request::Done,
            ),
            _ => failed(config, TrustError::Io),
        },
        _ => failed(config, TrustError::Io),
    }
}

/// Goes on from a known TLS certificate.
fn has_cert(config: BootstrapConfig) -> (r: (Bootstrap, Request))
    ensures
        (r.0@, r.1@) == spec_has_cert(config@),
{
    needs_policy(config)
}

/// Goes on from a known TLS key.
fn has_tls_key(config: BootstrapConfig, key_configured: bool) -> (r: (Bootstrap, Request))
    ensures
        (r.0@, r.1@) == spec_has_tls_key(config@, key_configured),
{
    let flow = match &config.tls_private_key {
        Some(private_path) => match &config.tls_certificate {
            None => Some(
                ensure_https_cert(config.home.as_str(), private_path.as_str(), key_configured),
            ),
            Some(_) => None,
        },
        None => None,
    };
    match flow {
        Some((issue, request)) => (
            Bootstrap { config, progress: Progress::NeedsCert { issue } },
            request,
        ),
        None => has_cert(config),
    }
}

/// Goes on from a known administrators' key.
fn has_auth_key(config: BootstrapConfig) -> (r: (Bootstrap, Request))
    ensures
        (r.0@, r.1@) == spec_has_auth_key(config@),
{
    if config.insecure_http {
        needs_policy(config)
    } else if config.tls_private_key.is_some() {
        has_tls_key(config, true)
    } else {
        let (flow, request) = ensure_https_key_pair(config.home.as_str());
        (Bootstrap { config, progress: Progress::NeedsTlsKey { flow } }, request)
    }
}

/// Ends the run with a failure.
fn failed(config: BootstrapConfig, error: TrustError) -> (r: (Bootstrap, Request))
    ensures
        (r.0@, r.1@) == spec_failed(config@, error),
{
    (Bootstrap { config, progress: Progress::Failed { error } }, Request::Abort { error })
}

impl Bootstrap {
    /// Starts a run for the configuration and says what to do first.
    pub fn start(config: BootstrapConfig) -> (r: (Bootstrap, Request))
        ensures
            (r.0@, r.1@) == spec_start(config@),
    {
        if config.auth_public_key.is_some() {
            has_auth_key(config)
        } else {
            let (flow, request) = ensure_auth_key_pair(config.home.as_str());
            (Bootstrap { config, progress: Progress::NeedsAuthKey { flow } }, request)
        }
    }

    /// Takes the reply to the last request and says what to do next.
    pub fn step(self, reply: Reply) -> (r: (Bootstrap, Request))
        ensures
            (r.0@, r.1@) == spec_step(self@, reply@),
    {
        let Bootstrap { config, progress } = self;
        match progress {
            Progress::NeedsAuthKey { flow } => {
                let (flow, request) = flow.step(reply);
                match request {
                    Request::Done => has_auth_key(
                        BootstrapConfig { auth_public_key: Some(flow.public_path), ..config },
                    ),
                    Request::Abort { error } => failed(config, error),
                    _ => (Bootstrap { config, progress: Progress::NeedsAuthKey { flow } }, request),
                }
            },
            Progress::NeedsTlsKey { flow } => {
                let (flow, request) = flow.step(reply);
                match request {
                    Request::Done => has_tls_key(
                        BootstrapConfig { tls_private_key: Some(flow.private_path), ..config },
                        false,
                    ),
                    Request::Abort { error } => failed(config, error),
                    _ => (Bootstrap { config, progress: Progress::NeedsTlsKey { flow } }, request),
                }
            },
            Progress::NeedsCert { issue } => {
                let (issue, request) = issue.step(reply);
                match request {
                    Request::Done => has_cert(
                        BootstrapConfig { tls_certificate: Some(issue.certificate_path), ..config },
                    ),
                    Request::Abort { error } => failed(config, error),
                    _ => (Bootstrap { config, progress: Progress::NeedsCert { issue } }, request),
                }
            },
            Progress::NeedsPolicyFile { step } => policy_step(config, step, reply),
            Progress::Ready => (Bootstrap { config, progress: Progress::Ready }, Request::Done),
            Progress::Failed { error } => (
                Bootstrap { config, progress: Progress::Failed { error } },
                Request::Abort { error },
            ),
        }
    }
}

impl ProgressView {
    /// The place of a stage in the sequence.
    pub open spec fn rank(self) -> nat {
        match self {
            ProgressView::NeedsAuthKey { .. } => 0,
            ProgressView::NeedsTlsKey { .. } => 1,
            ProgressView::NeedsCert { .. } => 2,
            ProgressView::NeedsPolicyFile { .. } => 3,
            ProgressView::Ready => 4,
            ProgressView::Failed { .. } => 4,
        }
    }

    /// Whether the run is over, well or badly.
    pub open spec fn is_over(self) -> bool {
        self is Ready || self is Failed
    }

    /// A bound on the number of replies that the run can still take before
    /// it is over.
    pub open spec fn remaining(self) -> nat {
        match self {
            ProgressView::NeedsAuthKey { flow: keys } => 15 + keys.remaining(),
            ProgressView::NeedsTlsKey { flow: keys } => 10 + keys.remaining(),
            ProgressView::NeedsCert { issue } => 5 + issue.remaining(),
            ProgressView::NeedsPolicyFile { step } => match step {
                PolicyStep::Configured => 3,
                PolicyStep::BuiltIn => 2,
                PolicyStep::Writing => 1,
            },
            ProgressView::Ready => 0,
            ProgressView::Failed { .. } => 0,
        }
    }
}

impl BootstrapConfigView {
    /// Whether every path that the service needs is resolved: the
    /// administrators' public key, and with TLS on the TLS key and
    /// certificate.
    pub open spec fn resolved(self) -> bool {
        &&& self.auth_public_key is Some
        &&& !self.insecure_http ==> self.tls_private_key is Some && self.tls_certificate is Some
    }

    /// Whether `path` is one of the two built-in policies that a run may
    /// create.
    pub open spec fn is_policy_target(self, path: Seq<char>) -> bool {
        path == self.allow_all_path() || path == self.deny_all_path()
    }

    /// Whether `path` is one of the five keys and certificates that a run may
    /// create.
    pub open spec fn is_artifact(self, path: Seq<char>) -> bool {
        ||| path == self.auth_private()
        ||| path == self.auth_public()
        ||| path == self.tls_private()
        ||| path == self.tls_public()
        ||| path == self.tls_certificate_path()
    }
}

impl BootstrapView {
    /// Whether the run is one that `start` and `step` can lead to: the
    /// provision in progress is that of the stage's own artifact and is not
    /// over, and every earlier stage has resolved its path.
    pub open spec fn wf(self) -> bool {
        let config = self.config;
        match self.progress {
            ProgressView::NeedsAuthKey { flow: keys } => {
                &&& !keys.is_over()
                &&& keys.algorithm == KeyAlgorithm::Signing
                &&& keys.private_path == config.auth_private()
                &&& keys.public_path == config.auth_public()
            },
            ProgressView::NeedsTlsKey { flow: keys } => {
                &&& !keys.is_over()
                &&& keys.algorithm == KeyAlgorithm::Tls
                &&& keys.private_path == config.tls_private()
                &&& keys.public_path == config.tls_public()
                &&& config.auth_public_key is Some
                &&& !config.insecure_http
            },
            ProgressView::NeedsCert { issue } => {
                &&& !issue.is_over()
                &&& issue.certificate_path == config.tls_certificate_path()
                &&& config.tls_private_key == Some(issue.private_key_path)
                &&& config.auth_public_key is Some
                &&& !config.insecure_http
            },
            ProgressView::NeedsPolicyFile { step } => {
                &&& config.resolved()
                &&& step is Configured ==> !config.allow_all
                &&& !(step is Configured) ==> config.policy_path == config.built_in_path()
            },
            ProgressView::Ready => config.resolved(),
            ProgressView::Failed { .. } => true,
        }
    }

    /// Whether `request` is one that the run may have pending: it ends the
    /// run exactly when the run is over, and a safe write goes to one of the
    /// five keys and certificates or to a built-in policy.
    pub open spec fn awaits(self, request: RequestView) -> bool {
        &&& request.is_final() <==> self.progress.is_over()
        &&& request matches RequestView::Create { path, .. } ==> self.config.is_artifact(path)
            || self.config.is_policy_target(path)
    }
}

/// A run starts well-formed, with a request that it may have pending, for
/// the home directory it was configured with.
pub proof fn lemma_start(config: BootstrapConfigView)
    ensures
        spec_start(config).0.wf(),
        spec_start(config).0.awaits(spec_start(config).1),
        spec_start(config).0.config.home == config.home,
        spec_start(config).0.config.insecure_http == config.insecure_http,
{
}

/// The sequence is linear. A step keeps a well-formed run well-formed and
/// leaves it with a request that it may have pending; it never leads back to
/// an earlier stage; and unless the run is over it uses up the bound on the
/// replies still to come. Home directory and the choice of TLS stay as
/// configured.
pub proof fn lemma_step(run: BootstrapView, reply: ReplyView)
    requires
        run.wf(),
    ensures
        spec_step(run, reply).0.wf(),
        spec_step(run, reply).0.awaits(spec_step(run, reply).1),
        spec_step(run, reply).0.progress.rank() >= run.progress.rank(),
        !run.progress.is_over() ==> spec_step(run, reply).0.progress.remaining()
            < run.progress.remaining(),
        spec_step(run, reply).0.config.home == run.config.home,
        spec_step(run, reply).0.config.insecure_http == run.config.insecure_http,
{
}

/// The first failure ends the run: whatever stage a run has reached, a
/// failed request makes it fail with that failure.
pub proof fn lemma_fail_fast(run: BootstrapView, error: TrustError)
    requires
        run.wf(),
        !run.progress.is_over(),
    ensures
        spec_step(run, ReplyView::Failed { error }) == spec_failed(run.config, error),
{
}

/// Without TLS no run ever stands at the TLS key or the TLS certificate.
pub proof fn lemma_without_tls(run: BootstrapView)
    requires
        run.wf(),
        run.config.insecure_http,
    ensures
        !(run.progress is NeedsTlsKey),
        !(run.progress is NeedsCert),
{
}

/// A run that is ready has resolved every path that the service needs.
pub proof fn lemma_ready_is_resolved(run: BootstrapView)
    requires
        run.wf(),
        run.progress is Ready,
    ensures
        run.config.resolved(),
{
}

/// An artifact that is there is not made again, and that holds of the
/// policy file as of every key and certificate: a run that is told that the
/// probed file exists asks for no fresh key, no certificate and no write.
pub proof fn lemma_present_artifact_is_kept(run: BootstrapView)
    requires
        run.wf(),
    ensures
        ({
            let request = spec_step(run, ReplyView::Exists { present: true }).1;
            !(request is Generate) && !(request is Issue) && !(request is Create) && !(request
                is Read)
        }),
{
}

} // verus!
