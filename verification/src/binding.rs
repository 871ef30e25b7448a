//! The checks that tie a request to an identity held on the ledger: the
//! account must carry the handle that the identity document binds, the
//! signing key must be one of the document's keys, and a privileged action
//! must come with a fresh, signed challenge that states it.

use crate::challenge::{challenge_verdict_by, check_challenge_by};
use crate::crypto::{digest_message, message_digest, verification, verify_signature};
use crate::error::{
    challenge_failure, from_challenge, from_verification, signature_failure, ApiError,
    RequestFault,
};
use crate::model::ok_view;
use crate::plc_types::{bound_handle, holds_key, Web5DocumentData, Web5DocumentDataView};
use vstd::prelude::*;

verus! {

/// The handle that `doc` binds, provided that the account carries that
/// handle and that `signing_key` is one of the document's keys; else the
/// first of: no handle bound, another handle, an unknown key.
pub open spec fn binding(
    doc: Web5DocumentDataView,
    account_handle: Option<Seq<char>>,
    signing_key: Seq<char>,
) -> Result<Seq<char>, ApiError> {
    match bound_handle(doc.also_known_as) {
        None => Err(ApiError::IncompatibleDidDoc),
        Some(handle) => if account_handle != Some(handle) {
            Err(ApiError::InvalidHandle)
        } else if !holds_key(doc.verification_methods, signing_key) {
            Err(ApiError::InvalidRequest(RequestFault::SigningKeyInconsistent))
        } else {
            Ok(handle)
        },
    }
}

/// Checks an account and a signing key against an identity document.
pub fn check_binding(
    doc: &Web5DocumentData,
    account_handle: &Option<String>,
    signing_key: &String,
) -> (out: Result<String, ApiError>)
    ensures
        ok_view(out) == binding(doc@, account_handle.deep_view(), signing_key@),
{
    match doc.handle() {
        None => Err(ApiError::IncompatibleDidDoc),
        Some(handle) => {
            let same = match account_handle {
                Some(h) => *h == handle,
                None => false,
            };
            if !same {
                Err(ApiError::InvalidHandle)
            } else if !doc.has_key(signing_key) {
                Err(ApiError::InvalidRequest(RequestFault::SigningKeyInconsistent))
            } else {
                Ok(handle)
            }
        },
    }
}

/// Why a signed challenge does not authorise an action, if it does not:
/// the challenge must be readable, fresh at `now` and state the action, and
/// `signed_bytes` must be a signature over the digest of the message under
/// `signing_key`. `None` where the action is authorised.
pub open spec fn authorisation(
    message: Seq<char>,
    statement: Seq<char>,
    signing_key: Seq<char>,
    signed_bytes: Seq<char>,
    now: Option<u64>,
) -> Option<ApiError> {
    match challenge_verdict_by(message, statement, now) {
        Err(e) => Some(challenge_failure(e)),
        Ok(()) => signature_failure(verification(signing_key, message_digest(message), signed_bytes)),
    }
}

/// Checks a signed challenge against a reading of the clock.
pub fn authorise(
    message: &str,
    statement: &str,
    signing_key: &String,
    signed_bytes: &str,
    now: Option<u64>,
) -> (out: Option<ApiError>)
    ensures
        out == authorisation(message@, statement@, signing_key@, signed_bytes@, now),
{
    match check_challenge_by(message, statement, now) {
        Err(e) => Some(from_challenge(e)),
        Ok(()) => {
            let digest = digest_message(message);
            from_verification(verify_signature(signing_key, &digest, signed_bytes))
        },
    }
}

/// A challenge authorises an action exactly when its timestamp can be read
/// and is fresh at the time of checking, one of its lines holds the
/// statement of the action, and its signature verifies.
pub proof fn lemma_authorised_iff(
    message: Seq<char>,
    statement: Seq<char>,
    signing_key: Seq<char>,
    signed_bytes: Seq<char>,
    now: u64,
)
    ensures
        authorisation(message, statement, signing_key, signed_bytes, Some(now)) is None <==> {
            &&& crate::challenge::embedded_timestamp(message) matches Ok(t)
                && crate::challenge::is_fresh(now, t)
            &&& crate::challenge::states(message, statement)
            &&& verification(signing_key, message_digest(message), signed_bytes) == Ok::<
                bool,
                crate::crypto::CryptoError,
            >(true)
        },
{
}

} // verus!
