//! Carrying out the requests of a bootstrap against a trust store in memory.
//!
//! Requests for the store are answered by the store. Requests for key
//! material and certificates are handed to the cryptographic library, here
//! as they are when the store is a directory on disk.

use vstd::prelude::*;
use crate::cert::{issue_self_signed_at, spec_conforms, spec_period};
use crate::decode::spec_public_der;
use crate::error::TrustError;
use crate::keys::{generate_key_pair, spec_is_pair};
use crate::memory::{spec_answer, TrustStore};
use crate::ossl::MAX_INPUT;
use crate::protocol::{Reply, ReplyView, Request, RequestView};

verus! {

/// Whether `reply` may come back for a request that the cryptographic
/// library carries out at the time `now`.
///
/// A generated pair has been found to be a pair for the role. An issued
/// certificate has been found to be the self-signed certificate that was
/// asked for, valid from `now`. A failure to generate is `Crypto`; a failure
/// to issue is `Parse` exactly when the key is too long to read or does not
/// decode, and `Crypto` otherwise.
pub open spec fn spec_fulfils(request: RequestView, now: i64, reply: ReplyView) -> bool {
    match request {
        RequestView::Generate { algorithm } => match reply {
            ReplyView::Generated { private_pem, public_pem } => spec_is_pair(
                algorithm,
                private_pem,
                public_pem,
            ),
            ReplyView::Failed { error } => error == TrustError::Crypto,
            _ => false,
        },
        RequestView::Issue { private_key, subject, validity_days } => match reply {
            ReplyView::Issued { pem } => {
                &&& spec_public_der(private_key) matches Some(public_key)
                &&& spec_conforms(
                    pem,
                    subject,
                    now,
                    (now + spec_period(validity_days)) as i64,
                    public_key,
                )
                &&& now + spec_period(validity_days) <= i64::MAX
            },
            ReplyView::Failed { error } => if private_key.len() > MAX_INPUT || spec_public_der(
                private_key,
            ) is None {
                error == TrustError::Parse
            } else {
                error == TrustError::Crypto
            },
            _ => false,
        },
        _ => false,
    }
}

/// Carries out a request for key material or for a certificate, at the time
/// `now` in seconds since the Unix epoch. Other requests get no answer.
pub fn fulfil(request: Request, now: i64) -> (reply: Option<Reply>)
    ensures
        request@ is Generate || request@ is Issue <==> reply is Some,
        reply matches Some(given) ==> spec_fulfils(request@, now, given@),
{
    match request {
        Request::Generate { algorithm } => match generate_key_pair(algorithm) {
            Ok(pair) => Some(
                Reply::Generated { private_pem: pair.private_pem, public_pem: pair.public_pem },
            ),
            Err(error) => Some(Reply::Failed { error }),
        },
        Request::Issue { private_key, subject, validity_days } => {
            match issue_self_signed_at(
                private_key.as_slice(),
                subject.as_str(),
                validity_days,
                now,
            ) {
                Ok(certificate) => Some(Reply::Issued { pem: certificate.pem }),
                Err(error) => Some(Reply::Failed { error }),
            }
        },
        _ => None,
    }
}

/// Whether `reply`, with the store then holding `after`, may come of
/// carrying out `request` at the time `now` on a store that held `before`.
pub open spec fn spec_performs(
    before: Map<Seq<char>, Seq<u8>>,
    request: RequestView,
    now: i64,
    after: Map<Seq<char>, Seq<u8>>,
    reply: ReplyView,
) -> bool {
    match spec_answer(before, request) {
        Some((files, expected)) => after == files && reply == expected,
        None => after == before && spec_fulfils(request, now, reply),
    }
}

/// Carries out one request of a bootstrap on the store in memory, at the
/// time `now`. A request that ends the run gets no answer.
pub fn perform(store: &mut TrustStore, request: Request, now: i64) -> (reply: Option<Reply>)
    ensures
        reply is None <==> request@.is_final(),
        reply is None ==> final(store)@ == old(store)@,
        reply matches Some(given) ==> spec_performs(
            old(store)@,
            request@,
            now,
            final(store)@,
            given@,
        ),
{
    match request {
        Request::Generate { .. } => fulfil(request, now),
        Request::Issue { .. } => fulfil(request, now),
        _ => store.answer(request),
    }
}

} // verus!
