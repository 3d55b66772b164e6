//! Provision of a key pair in the trust store.
//!
//! A pair is two files: the private key at the base path with the extension
//! `.pem`, the public key at the base path with the extension `.pub`. Both
//! are written with safe writes, the private key first. A private key that
//! is already there is taken as it is: it is neither read nor replaced.

use vstd::prelude::*;
use crate::error::TrustError;
use crate::keys::KeyAlgorithm;
use crate::layout::{
    join,
    key_pair_paths,
    spec_auth_key_name,
    spec_join,
    spec_private_path,
    spec_public_path,
    spec_tls_key_name,
};
use crate::protocol::{Reply, ReplyView, Request, RequestView};

verus! {

/// How far the provision of a key pair has come.
#[derive(Clone, Copy, Debug, PartialEq, Eq, Structural)]
pub enum KeyStep {
    /// Asked whether the private key is there.
    Probing,
    /// Asked for a fresh pair.
    Generating,
    /// Asked to create the private key; the public half waits.
    WritingPrivate,
    /// Asked to create the public key.
    WritingPublic,
    /// The pair is there.
    Finished,
    /// Provision has failed.
    Failed(TrustError),
}

/// The provision of one key pair, in progress.
#[derive(Debug)]
pub struct KeyPairFlow {
    pub algorithm: KeyAlgorithm,
    pub private_path: String,
    pub public_path: String,
    pub step: KeyStep,
    /// The encoded public key between its generation and its write.
    pub pending: Vec<u8>,
}

/// A provision in progress, with its paths and contents as sequences.
pub struct KeyPairFlowView {
    pub algorithm: KeyAlgorithm,
    pub private_path: Seq<char>,
    pub public_path: Seq<char>,
    pub step: KeyStep,
    pub pending: Seq<u8>,
}

impl View for KeyPairFlow {
    type V = KeyPairFlowView;

    open spec fn view(&self) -> KeyPairFlowView {
        KeyPairFlowView {
            algorithm: self.algorithm,
            private_path: self.private_path@,
            public_path: self.public_path@,
            step: self.step,
            pending: self.pending@,
        }
    }
}

impl KeyPairFlowView {
    /// The flow at another step, holding nothing back.
    pub open spec fn at(self, step: KeyStep) -> KeyPairFlowView {
        KeyPairFlowView { step, pending: Seq::empty(), ..self }
    }

    /// The flow for the pair at `base`, at the given step.
    pub open spec fn begin(base: Seq<char>, algorithm: KeyAlgorithm, step: KeyStep)
        -> KeyPairFlowView {
        KeyPairFlowView {
            algorithm,
            private_path: spec_private_path(base),
            public_path: spec_public_path(base),
            step,
            pending: Seq::empty(),
        }
    }

    /// Whether the flow has come to its end, well or badly.
    pub open spec fn is_over(self) -> bool {
        self.step is Finished || self.step is Failed
    }

    /// The number of replies that the flow can still take before it is over.
    pub open spec fn remaining(self) -> nat {
        match self.step {
            KeyStep::Probing => 4,
            KeyStep::Generating => 3,
            KeyStep::WritingPrivate => 2,
            KeyStep::WritingPublic => 1,
            KeyStep::Finished => 0,
            KeyStep::Failed(_) => 0,
        }
    }
}

/// Where a provision goes on a reply, and what it asks next.
///
/// A private key that is there ends the provision at once. One that is not
/// is generated; its private half is created first, its public half second.
/// A failed request ends the provision with that failure, and so does, as an
/// I/O failure, a reply that answers another request than the one made. A
/// provision that is over stays as it is.
pub open spec fn spec_key_step(flow: KeyPairFlowView, reply: ReplyView) -> (
    KeyPairFlowView,
    RequestView,
) {
    match (flow.step, reply) {
        (KeyStep::Finished, _) => (flow, RequestView::Done),
        (KeyStep::Failed(error), _) => (flow, RequestView::Abort { error }),
        (_, ReplyView::Failed { error }) => (
            flow.at(KeyStep::Failed(error)),
            RequestView::Abort { error },
        ),
        (KeyStep::Probing, ReplyView::Exists { present }) => if present {
            (flow.at(KeyStep::Finished), RequestView::Done)
        } else {
            (flow.at(KeyStep::Generating), RequestView::Generate { algorithm: flow.algorithm })
        },
        (KeyStep::Generating, ReplyView::Generated { private_pem, public_pem }) => (
            KeyPairFlowView { step: KeyStep::WritingPrivate, pending: public_pem, ..flow },
            RequestView::Create { path: flow.private_path, contents: private_pem },
        ),
        (KeyStep::WritingPrivate, ReplyView::Created) => (
            flow.at(KeyStep::WritingPublic),
            RequestView::Create { path: flow.public_path, contents: flow.pending },
        ),
        (KeyStep::WritingPublic, ReplyView::Created) => (
            flow.at(KeyStep::Finished),
            RequestView::Done,
        ),
        _ => (
            flow.at(KeyStep::Failed(TrustError::Io)),
            RequestView::Abort { error: TrustError::Io },
        ),
    }
}

impl KeyPairFlow {
    /// Starts the provision of the pair at `base_path` unless it is there:
    /// the first request asks whether the private key exists.
    pub fn ensure(base_path: &str, algorithm: KeyAlgorithm) -> (r: (KeyPairFlow, Request))
        ensures
            r.0@ == KeyPairFlowView::begin(base_path@, algorithm, KeyStep::Probing),
            r.1@ == (RequestView::Probe { path: spec_private_path(base_path@) }),
    {
        let (private_path, public_path) = key_pair_paths(base_path);
        let request = Request::Probe { path: private_path.clone() };
        let flow = KeyPairFlow {
            algorithm,
            private_path,
            public_path,
            step: KeyStep::Probing,
            pending: Vec::new(),
        };
        (flow, request)
    }

    /// Starts the provision of a new pair at `base_path`: the first request
    /// asks for a fresh pair, and a file that is already there makes the
    /// provision fail.
    pub fn create(base_path: &str, algorithm: KeyAlgorithm) -> (r: (KeyPairFlow, Request))
        ensures
            r.0@ == KeyPairFlowView::begin(base_path@, algorithm, KeyStep::Generating),
            r.1@ == (RequestView::Generate { algorithm }),
    {
        let (private_path, public_path) = key_pair_paths(base_path);
        let flow = KeyPairFlow {
            algorithm,
            private_path,
            public_path,
            step: KeyStep::Generating,
            pending: Vec::new(),
        };
        (flow, Request::Generate { algorithm })
    }

    /// Ends the provision with a failure.
    fn fail(self, error: TrustError) -> (r: (KeyPairFlow, Request))
        ensures
            r.0@ == self@.at(KeyStep::Failed(error)),
            r.1@ == (RequestView::Abort { error }),
    {
        let flow = KeyPairFlow { step: KeyStep::Failed(error), pending: Vec::new(), ..self };
        (flow, Request::Abort { error })
    }

    /// Takes the reply to the last request and says what to do next.
    pub fn step(self, reply: Reply) -> (r: (KeyPairFlow, Request))
        ensures
            (r.0@, r.1@) == spec_key_step(self@, reply@),
    {
        match self.step {
            KeyStep::Finished => (self, Request::Done),
            KeyStep::Failed(error) => (self, Request::Abort { error }),
            KeyStep::Probing => match reply {
                Reply::Failed { error } => self.fail(error),
                Reply::Exists { present } => if present {
                    let flow = KeyPairFlow {
                        step: KeyStep::Finished,
                        pending: Vec::new(),
                        ..self
                    };
                    (flow, Request::Done)
                } else {
                    let algorithm = self.algorithm;
                    let flow = KeyPairFlow {
                        step: KeyStep::Generating,
                        pending: Vec::new(),
                        ..self
                    };
                    (flow, Request::Generate { algorithm })
                },
                _ => self.fail(TrustError::Io),
            },
            KeyStep::Generating => match reply {
                Reply::Failed { error } => self.fail(error),
                Reply::Generated { private_pem, public_pem } => {
                    let path = self.private_path.clone();
                    let flow = KeyPairFlow {
                        step: KeyStep::WritingPrivate,
                        pending: public_pem,
                        ..self
                    };
                    (flow, Request::Create { path, contents: private_pem })
                },
                _ => self.fail(TrustError::Io),
            },
            KeyStep::WritingPrivate => match reply {
                Reply::Failed { error } => self.fail(error),
                Reply::Created => {
                    let path = self.public_path.clone();
                    let KeyPairFlow { algorithm, private_path, public_path, step: _, pending } =
                        self;
                    let flow = KeyPairFlow {
                        algorithm,
                        private_path,
                        public_path,
                        step: KeyStep::WritingPublic,
                        pending: Vec::new(),
                    };
                    (flow, Request::Create { path, contents: pending })
                },
                _ => self.fail(TrustError::Io),
            },
            KeyStep::WritingPublic => match reply {
                Reply::Failed { error } => self.fail(error),
                Reply::Created => {
                    let flow = KeyPairFlow {
                        step: KeyStep::Finished,
                        pending: Vec::new(),
                        ..self
                    };
                    (flow, Request::Done)
                },
                _ => self.fail(TrustError::Io),
            },
        }
    }
}

/// Starts the provision of the administrators' key pair under `home_dir`,
/// unless it is there.
pub fn ensure_auth_key_pair(home_dir: &str) -> (r: (KeyPairFlow, Request))
    ensures
        r.0@ == KeyPairFlowView::begin(
            spec_join(home_dir@, spec_auth_key_name()),
            KeyAlgorithm::Signing,
            KeyStep::Probing,
        ),
        r.1@ == (RequestView::Probe {
            path: spec_private_path(spec_join(home_dir@, spec_auth_key_name())),
        }),
{
    let base = join(home_dir, "auth_key");
    KeyPairFlow::ensure(base.as_str(), KeyAlgorithm::Signing)
}

/// Starts the provision of the TLS key pair under `home_dir`, unless it is
/// there.
pub fn ensure_https_key_pair(home_dir: &str) -> (r: (KeyPairFlow, Request))
    ensures
        r.0@ == KeyPairFlowView::begin(
            spec_join(home_dir@, spec_tls_key_name()),
            KeyAlgorithm::Tls,
            KeyStep::Probing,
        ),
        r.1@ == (RequestView::Probe {
            path: spec_private_path(spec_join(home_dir@, spec_tls_key_name())),
        }),
{
    let base = join(home_dir, "https_key");
    KeyPairFlow::ensure(base.as_str(), KeyAlgorithm::Tls)
}

/// Starts the generation, on request, of a new administrators' key pair at
/// the base path `out`.
pub fn trustee_keygen(out: &str) -> (r: (KeyPairFlow, Request))
    ensures
        r.0@ == KeyPairFlowView::begin(out@, KeyAlgorithm::Signing, KeyStep::Generating),
        r.1@ == (RequestView::Generate { algorithm: KeyAlgorithm::Signing }),
{
    KeyPairFlow::create(out, KeyAlgorithm::Signing)
}

} // verus!
