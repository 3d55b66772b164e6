//! What trust bootstrap asks of whoever drives it, and what it is told.
//!
//! Bootstrap itself touches neither disk nor clock. It asks for one thing
//! at a time, is told how that went, and decides what comes next. Whoever
//! drives it owns the trust store: the directory on disk, or a store held in
//! memory.

use vstd::prelude::*;
use crate::error::TrustError;
use crate::keys::KeyAlgorithm;

verus! {

/// The next thing to do for a bootstrap in progress.
#[derive(Debug)]
pub enum Request {
    /// Find out whether a file exists at `path`.
    Probe { path: String },
    /// Generate a fresh key pair for the role.
    Generate { algorithm: KeyAlgorithm },
    /// Safe-write: create the file at `path` with `contents`, and fail
    /// rather than touch a file that is already there.
    Create { path: String, contents: Vec<u8> },
    /// Read the file at `path`.
    Read { path: String },
    /// Issue a self-signed certificate for the encoded private key.
    Issue { private_key: Vec<u8>, subject: String, validity_days: u32 },
    /// Nothing is left to do.
    Done,
    /// Give up: the run has failed with `error`.
    Abort { error: TrustError },
}

/// How the last request went.
#[derive(Debug)]
pub enum Reply {
    /// The probed file is there, or is not.
    Exists { present: bool },
    /// The generated pair, both halves encoded.
    Generated { private_pem: Vec<u8>, public_pem: Vec<u8> },
    /// The file was created.
    Created,
    /// What the file holds.
    Contents { bytes: Vec<u8> },
    /// The issued certificate, encoded.
    Issued { pem: Vec<u8> },
    /// The file to read is not there.
    Missing,
    /// The request failed.
    Failed { error: TrustError },
}

/// Why an operation on a file failed.
#[derive(Clone, Copy, Debug, PartialEq, Eq, Structural)]
pub enum IoFailure {
    /// The file to create is already there.
    AlreadyExists,
    /// The file is not there.
    NotFound,
    /// Anything else.
    Other,
}

/// A request with its paths and contents as sequences.
pub enum RequestView {
    Probe { path: Seq<char> },
    Generate { algorithm: KeyAlgorithm },
    Create { path: Seq<char>, contents: Seq<u8> },
    Read { path: Seq<char> },
    Issue { private_key: Seq<u8>, subject: Seq<char>, validity_days: u32 },
    Done,
    Abort { error: TrustError },
}

/// A reply with its contents as sequences.
pub enum ReplyView {
    Exists { present: bool },
    Generated { private_pem: Seq<u8>, public_pem: Seq<u8> },
    Created,
    Contents { bytes: Seq<u8> },
    Issued { pem: Seq<u8> },
    Missing,
    Failed { error: TrustError },
}

impl View for Request {
    type V = RequestView;

    open spec fn view(&self) -> RequestView {
        match *self {
            Request::Probe { path } => RequestView::Probe { path: path@ },
            Request::Generate { algorithm } => RequestView::Generate { algorithm },
            Request::Create { path, contents } => RequestView::Create {
                path: path@,
                contents: contents@,
            },
            Request::Read { path } => RequestView::Read { path: path@ },
            Request::Issue { private_key, subject, validity_days } => RequestView::Issue {
                private_key: private_key@,
                subject: subject@,
                validity_days,
            },
            Request::Done => RequestView::Done,
            Request::Abort { error } => RequestView::Abort { error },
        }
    }
}

impl View for Reply {
    type V = ReplyView;

    open spec fn view(&self) -> ReplyView {
        match *self {
            Reply::Exists { present } => ReplyView::Exists { present },
            Reply::Generated { private_pem, public_pem } => ReplyView::Generated {
                private_pem: private_pem@,
                public_pem: public_pem@,
            },
            Reply::Created => ReplyView::Created,
            Reply::Contents { bytes } => ReplyView::Contents { bytes: bytes@ },
            Reply::Issued { pem } => ReplyView::Issued { pem: pem@ },
            Reply::Missing => ReplyView::Missing,
            Reply::Failed { error } => ReplyView::Failed { error },
        }
    }
}

impl Request {
    /// Whether the request ends a run.
    pub fn is_final(&self) -> (r: bool)
        ensures
            r == self@.is_final(),
    {
        match self {
            Request::Done => true,
            Request::Abort { .. } => true,
            _ => false,
        }
    }
}

/// The reply that tells how a probe went: a failure to look is an I/O
/// failure.
pub open spec fn spec_probe_reply(outcome: Result<bool, IoFailure>) -> ReplyView {
    match outcome {
        Ok(present) => ReplyView::Exists { present },
        Err(_) => ReplyView::Failed { error: TrustError::Io },
    }
}

/// The reply that tells how a safe write went: a file that is already there
/// is told apart from every other failure, which is an I/O failure.
pub open spec fn spec_create_reply(outcome: Result<(), IoFailure>) -> ReplyView {
    match outcome {
        Ok(_) => ReplyView::Created,
        Err(IoFailure::AlreadyExists) => ReplyView::Failed { error: TrustError::AlreadyExists },
        Err(_) => ReplyView::Failed { error: TrustError::Io },
    }
}

/// The reply that tells how a read went: a file that is not there is told
/// apart from every other failure, which is an I/O failure.
pub open spec fn spec_read_reply(outcome: Result<Seq<u8>, IoFailure>) -> ReplyView {
    match outcome {
        Ok(bytes) => ReplyView::Contents { bytes },
        Err(IoFailure::NotFound) => ReplyView::Missing,
        Err(_) => ReplyView::Failed { error: TrustError::Io },
    }
}

impl Reply {
    /// Tells how a probe went.
    pub fn probed(outcome: Result<bool, IoFailure>) -> (reply: Reply)
        ensures
            reply@ == spec_probe_reply(outcome),
    {
        match outcome {
            Ok(present) => Reply::Exists { present },
            Err(_) => Reply::Failed { error: TrustError::Io },
        }
    }

    /// Tells how a safe write went.
    pub fn created(outcome: Result<(), IoFailure>) -> (reply: Reply)
        ensures
            reply@ == spec_create_reply(outcome),
    {
        match outcome {
            Ok(_) => Reply::Created,
            Err(IoFailure::AlreadyExists) => Reply::Failed { error: TrustError::AlreadyExists },
            Err(_) => Reply::Failed { error: TrustError::Io },
        }
    }

    /// Tells how a read went.
    pub fn read(outcome: Result<Vec<u8>, IoFailure>) -> (reply: Reply)
        ensures
            reply@ == spec_read_reply(
                match outcome {
                    Ok(bytes) => Ok(bytes@),
                    Err(failure) => Err(failure),
                },
            ),
    {
        match outcome {
            Ok(bytes) => Reply::Contents { bytes },
            Err(IoFailure::NotFound) => Reply::Missing,
            Err(_) => Reply::Failed { error: TrustError::Io },
        }
    }
}

impl RequestView {
    /// Whether the request ends a run.
    pub open spec fn is_final(self) -> bool {
        self is Done || self is Abort
    }
}

} // verus!
