//! Provision of the TLS certificate in the trust store.
//!
//! The certificate has a fixed file name under the home directory. One that
//! is there is taken as it is. Otherwise the private key is read, a
//! certificate is issued for it, and the certificate is written with a safe
//! write.

use vstd::prelude::*;
use crate::cert::{default_subject, spec_default_subject, DEFAULT_VALIDITY_DAYS};
use crate::error::TrustError;
use crate::layout::{join, spec_certificate_name, spec_join};
use crate::protocol::{Reply, ReplyView, Request, RequestView};

verus! {

/// How far the provision of the certificate has come.
#[derive(Clone, Copy, Debug, PartialEq, Eq, Structural)]
pub enum CertStep {
    /// Asked whether the certificate is there.
    Probing,
    /// Asked for the private key.
    Reading,
    /// Asked for a certificate.
    Issuing,
    /// Asked to create the certificate.
    Writing,
    /// The certificate is there.
    Finished,
    /// Provision has failed.
    Failed(TrustError),
}

/// The provision of the certificate, in progress.
#[derive(Debug)]
pub struct CertFlow {
    pub certificate_path: String,
    pub private_key_path: String,
    /// Whether the private key's path came from the configuration, rather
    /// than from a provision of the key.
    pub key_configured: bool,
    pub step: CertStep,
}

/// A provision in progress, with its paths as sequences.
pub struct CertFlowView {
    pub certificate_path: Seq<char>,
    pub private_key_path: Seq<char>,
    pub key_configured: bool,
    pub step: CertStep,
}

impl View for CertFlow {
    type V = CertFlowView;

    open spec fn view(&self) -> CertFlowView {
        CertFlowView {
            certificate_path: self.certificate_path@,
            private_key_path: self.private_key_path@,
            key_configured: self.key_configured,
            step: self.step,
        }
    }
}

impl CertFlowView {
    /// The flow at another step.
    pub open spec fn at(self, step: CertStep) -> CertFlowView {
        CertFlowView { step, ..self }
    }

    /// The flow for the certificate under `home`, at the given step.
    pub open spec fn begin(
        home: Seq<char>,
        private_key_path: Seq<char>,
        key_configured: bool,
        step: CertStep,
    ) -> CertFlowView {
        CertFlowView {
            certificate_path: spec_join(home, spec_certificate_name()),
            private_key_path,
            key_configured,
            step,
        }
    }

    /// Whether the flow has come to its end, well or badly.
    pub open spec fn is_over(self) -> bool {
        self.step is Finished || self.step is Failed
    }

    /// The number of replies that the flow can still take before it is over.
    pub open spec fn remaining(self) -> nat {
        match self.step {
            CertStep::Probing => 4,
            CertStep::Reading => 3,
            CertStep::Issuing => 2,
            CertStep::Writing => 1,
            CertStep::Finished => 0,
            CertStep::Failed(_) => 0,
        }
    }

    /// The failure that a missing private key comes to: a configured path
    /// that does not exist is a fault of the configuration, a provisioned
    /// key that has gone is a fault of the store.
    pub open spec fn missing_key(self) -> TrustError {
        if self.key_configured {
            TrustError::Config
        } else {
            TrustError::Io
        }
    }
}

/// Where a provision goes on a reply, and what it asks next.
///
/// A certificate that is there ends the provision at once. Otherwise the
/// private key is read, a certificate for the default subject and the
/// default validity is asked for, and the certificate is created. A failed
/// request ends the provision with that failure; a private key that is not
/// there ends it with `Config` or `Io`; a reply that answers another request
/// than the one made ends it with `Io`. A provision that is over stays as it
/// is.
pub open spec fn spec_cert_step(flow: CertFlowView, reply: ReplyView) -> (
    CertFlowView,
    RequestView,
) {
    match (flow.step, reply) {
        (CertStep::Finished, _) => (flow, RequestView::Done),
        (CertStep::Failed(error), _) => (flow, RequestView::Abort { error }),
        (_, ReplyView::Failed { error }) => (
            flow.at(CertStep::Failed(error)),
            RequestView::Abort { error },
        ),
        (CertStep::Probing, ReplyView::Exists { present }) => if present {
            (flow.at(CertStep::Finished), RequestView::Done)
        } else {
            (flow.at(CertStep::Reading), RequestView::Read { path: flow.private_key_path })
        },
        (CertStep::Reading, ReplyView::Contents { bytes }) => (
            flow.at(CertStep::Issuing),
            RequestView::Issue {
                private_key: bytes,
                subject: spec_default_subject(),
                validity_days: DEFAULT_VALIDITY_DAYS,
            },
        ),
        (CertStep::Reading, ReplyView::Missing) => (
            flow.at(CertStep::Failed(flow.missing_key())),
            RequestView::Abort { error: flow.missing_key() },
        ),
        (CertStep::Issuing, ReplyView::Issued { pem }) => (
            flow.at(CertStep::Writing),
            RequestView::Create { path: flow.certificate_path, contents: pem },
        ),
        (CertStep::Writing, ReplyView::Created) => (flow.at(CertStep::Finished), RequestView::Done),
        _ => (
            flow.at(CertStep::Failed(TrustError::Io)),
            RequestView::Abort { error: TrustError::Io },
        ),
    }
}

impl CertFlow {
    /// Ends the provision with a failure.
    fn fail(self, error: TrustError) -> (r: (CertFlow, Request))
        ensures
            r.0@ == self@.at(CertStep::Failed(error)),
            r.1@ == (RequestView::Abort { error }),
    {
        (CertFlow { step: CertStep::Failed(error), ..self }, Request::Abort { error })
    }

    /// Takes the reply to the last request and says what to do next.
    pub fn step(self, reply: Reply) -> (r: (CertFlow, Request))
        ensures
            (r.0@, r.1@) == spec_cert_step(self@, reply@),
    {
        match self.step {
            CertStep::Finished => (self, Request::Done),
            CertStep::Failed(error) => (self, Request::Abort { error }),
            CertStep::Probing => match reply {
                Reply::Failed { error } => self.fail(error),
                Reply::Exists { present } => if present {
                    (CertFlow { step: CertStep::Finished, ..self }, Request::Done)
                } else {
                    let path = self.private_key_path.clone();
                    (CertFlow { step: CertStep::Reading, ..self }, Request::Read { path })
                },
                _ => self.fail(TrustError::Io),
            },
            CertStep::Reading => match reply {
                Reply::Failed { error } => self.fail(error),
                Reply::Contents { bytes } => (
                    CertFlow { step: CertStep::Issuing, ..self },
                    Request::Issue {
                        private_key: bytes,
                        subject: default_subject(),
                        validity_days: DEFAULT_VALIDITY_DAYS,
                    },
                ),
                Reply::Missing => {
                    let error = if self.key_configured {
                        TrustError::Config
                    } else {
                        TrustError::Io
                    };
                    self.fail(error)
                },
                _ => self.fail(TrustError::Io),
            },
            CertStep::Issuing => match reply {
                Reply::Failed { error } => self.fail(error),
                Reply::Issued { pem } => {
                    let path = self.certificate_path.clone();
                    (
                        CertFlow { step: CertStep::Writing, ..self },
                        Request::Create { path, contents: pem },
                    )
                },
                _ => self.fail(TrustError::Io),
            },
            CertStep::Writing => match reply {
                Reply::Failed { error } => self.fail(error),
                Reply::Created => (CertFlow { step: CertStep::Finished, ..self }, Request::Done),
                _ => self.fail(TrustError::Io),
            },
        }
    }
}

/// Starts the provision of the TLS certificate under `home_dir` for the
/// private key at `private_path`, unless the certificate is there: the first
/// request asks whether it exists.
pub fn ensure_https_cert(home_dir: &str, private_path: &str, key_configured: bool) -> (r: (
    CertFlow,
    Request,
))
    ensures
        r.0@ == CertFlowView::begin(home_dir@, private_path@, key_configured, CertStep::Probing),
        r.1@ == (RequestView::Probe { path: spec_join(home_dir@, spec_certificate_name()) }),
{
    let certificate_path = join(home_dir, "https_cert.pem");
    let request = Request::Probe { path: certificate_path.clone() };
    let flow = CertFlow {
        certificate_path,
        private_key_path: private_path.to_owned(),
        key_configured,
        step: CertStep::Probing,
    };
    (flow, request)
}

} // verus!
