//! What the two write requests share: who may write, how the operations of
//! a request are paired with their assessments, and how the failures of
//! preparation and of the commit generator end a request.

use crate::commit::CommitError;
use crate::error::{ApiError, AuthFault, RequestFault};
use crate::lexicon::SignedRoot;
use crate::writes::{
    AssessedWrite, AssessedWriteView, Assessment, AssessmentView, PrepareError, WriteRequest,
    WriteRequestView,
};
use vstd::prelude::*;

verus! {

/// Who a request is made for, as its access token says.
#[derive(Clone, Debug, PartialEq, Eq)]
pub struct Credentials {
    pub did: Option<String>,
}

/// What a [`Credentials`] holds, as plain values.
pub struct CredentialsView {
    pub did: Option<Seq<char>>,
}

impl DeepView for Credentials {
    type V = CredentialsView;

    open spec fn deep_view(&self) -> CredentialsView {
        CredentialsView {
            did: self.did.deep_view(),
        }
    }
}

impl View for Credentials {
    type V = CredentialsView;

    open spec fn view(&self) -> CredentialsView {
        self.deep_view()
    }
}

/// Why the bearer of `auth` may not write to the repository of `did`, if
/// it may not: no credentials, credentials without an identity, or those of
/// another identity.
pub open spec fn write_refusal(auth: Option<CredentialsView>, did: Seq<char>) -> Option<ApiError> {
    match auth {
        None => Some(ApiError::AuthRequiredError(AuthFault::MissingCredentials)),
        Some(credentials) => match credentials.did {
            None => Some(ApiError::InvalidRequest(RequestFault::CredentialsWithoutDid)),
            Some(bearer) => if bearer != did {
                Some(ApiError::AuthRequiredError(AuthFault::DidInconsistent))
            } else {
                None
            },
        },
    }
}

/// Why the bearer of `auth` may not write to the repository of `did`, if
/// it may not.
pub fn check_writer(auth: &Option<Credentials>, did: &String) -> (out: Option<ApiError>)
    ensures
        out == write_refusal(auth.deep_view(), did@),
{
    match auth {
        None => Some(ApiError::AuthRequiredError(AuthFault::MissingCredentials)),
        Some(credentials) => match &credentials.did {
            None => Some(ApiError::InvalidRequest(RequestFault::CredentialsWithoutDid)),
            Some(bearer) => if *bearer != *did {
                Some(ApiError::AuthRequiredError(AuthFault::DidInconsistent))
            } else {
                None
            },
        },
    }
}

/// How a failure to prepare a batch ends a request.
pub open spec fn prepare_failure(e: PrepareError) -> ApiError {
    match e {
        PrepareError::TooManyWrites => ApiError::InvalidRequest(RequestFault::TooManyWrites),
        PrepareError::RecordInvalid => ApiError::RecordInvalid,
        PrepareError::KeyRequired => ApiError::KeyRequired,
    }
}

/// How a failure to prepare a batch ends a request.
pub fn from_prepare(e: PrepareError) -> (out: ApiError)
    ensures
        out == prepare_failure(e),
{
    match e {
        PrepareError::TooManyWrites => ApiError::InvalidRequest(RequestFault::TooManyWrites),
        PrepareError::RecordInvalid => ApiError::RecordInvalid,
        PrepareError::KeyRequired => ApiError::KeyRequired,
    }
}

/// How a refusal of the commit generator ends a request.
pub open spec fn commit_failure(e: CommitError) -> ApiError {
    match e {
        CommitError::SwapMismatch => ApiError::SwapMismatch,
        CommitError::TooManyWrites => ApiError::InvalidRequest(RequestFault::TooManyWrites),
        CommitError::StaleRevision => ApiError::InvalidRequest(RequestFault::StaleRevision),
        CommitError::Crypto(fault) => ApiError::Crypto(fault),
        CommitError::SignatureRejected => ApiError::Crypto(crate::crypto::CryptoError::Mismatch),
        CommitError::IdentifierReused => ApiError::Storage,
    }
}

/// How a refusal of the commit generator ends a request.
pub fn from_commit(e: CommitError) -> (out: ApiError)
    ensures
        out == commit_failure(e),
        out.class_of() == e.class_of(),
{
    match e {
        CommitError::SwapMismatch => ApiError::SwapMismatch,
        CommitError::TooManyWrites => ApiError::InvalidRequest(RequestFault::TooManyWrites),
        CommitError::StaleRevision => ApiError::InvalidRequest(RequestFault::StaleRevision),
        CommitError::Crypto(fault) => ApiError::Crypto(fault),
        CommitError::SignatureRejected => ApiError::Crypto(crate::crypto::CryptoError::Mismatch),
        CommitError::IdentifierReused => ApiError::Storage,
    }
}

/// The operations with their assessments, one for one in order; `None`
/// where there are not as many assessments as operations.
pub open spec fn paired(requests: Seq<WriteRequestView>, assessments: Seq<AssessmentView>) -> Option<
    Seq<AssessedWriteView>,
> {
    if requests.len() != assessments.len() {
        None
    } else {
        Some(
            Seq::new(
                requests.len(),
                |i: int| AssessedWriteView { request: requests[i], assessment: assessments[i] },
            ),
        )
    }
}

/// Pairs the operations of a request with their assessments.
pub fn pair_up(requests: Vec<WriteRequest>, assessments: Vec<Assessment>) -> (out: Option<
    Vec<AssessedWrite>,
>)
    ensures
        out.deep_view() == paired(requests.deep_view(), assessments.deep_view()),
{
    if requests.len() != assessments.len() {
        return None;
    }
    let ghost all_requests = requests@;
    let ghost all_assessments = assessments@;
    let mut out: Vec<AssessedWrite> = Vec::new();
    let mut left = assessments;
    // Popping takes from the back: turn the assessments round first.
    let mut reversed: Vec<Assessment> = Vec::new();
    while left.len() > 0
        invariant
            left.len() + reversed.len() == all_assessments.len(),
            forall|k: int| 0 <= k < left.len() ==> left[k] == all_assessments[k],
            forall|k: int|
                0 <= k < reversed.len() ==> #[trigger] reversed[k] == all_assessments[
                    all_assessments.len() - 1 - k],
        decreases left.len(),
    {
        let last = left.pop().unwrap();
        reversed.push(last);
    }
    for request in it: requests.into_iter()
        invariant
            it.seq() == all_requests,
            all_requests.len() == all_assessments.len(),
            out.len() == it.index(),
            reversed.len() == all_assessments.len() - it.index(),
            forall|k: int|
                0 <= k < reversed.len() ==> #[trigger] reversed[k] == all_assessments[
                    all_assessments.len() - 1 - k],
            forall|k: int|
                0 <= k < out.len() ==> (#[trigger] out[k]).request == all_requests[k] && out[k].assessment
                    == all_assessments[k],
    {
        let assessment = reversed.pop().unwrap();
        out.push(AssessedWrite { request, assessment });
    }
    assert(out.deep_view() =~= paired(requests.deep_view(), assessments.deep_view())->0);
    Some(out)
}

/// A copy of a text that may be absent.
pub fn copy_optional(text: &Option<String>) -> (out: Option<String>)
    ensures
        out.deep_view() == text.deep_view(),
{
    match text {
        Some(t) => Some(t.clone()),
        None => None,
    }
}

/// A copy of a signed root.
pub fn copy_root(root: &SignedRoot) -> (out: SignedRoot)
    ensures
        out@ == root@,
{
    SignedRoot {
        did: root.did.clone(),
        rev: root.rev.clone(),
        data: root.data.clone(),
        prev: copy_optional(&root.prev),
        version: root.version,
        signed_bytes: root.signed_bytes.clone(),
    }
}

/// A copy of an operation.
pub fn copy_request(request: &WriteRequest) -> (out: WriteRequest)
    ensures
        out@ == request@,
{
    let record = match &request.record {
        Some(bytes) => {
            let copy = bytes.clone();
            assert(copy.deep_view() =~= bytes.deep_view());
            Some(copy)
        },
        None => None,
    };
    WriteRequest {
        action: request.action,
        collection: request.collection.clone(),
        rkey: match &request.rkey {
            Some(key) => Some(key.clone()),
            None => None,
        },
        record,
    }
}

/// A copy of the operations of a request.
pub fn copy_requests(requests: &Vec<WriteRequest>) -> (out: Vec<WriteRequest>)
    ensures
        out.deep_view() == requests.deep_view(),
{
    let mut out: Vec<WriteRequest> = Vec::new();
    let mut i: usize = 0;
    while i < requests.len()
        invariant
            i <= requests.len(),
            out.len() == i,
            forall|k: int| 0 <= k < i ==> (#[trigger] out[k])@ == requests[k]@,
        decreases requests.len() - i,
    {
        out.push(copy_request(&requests[i]));
        i += 1;
    }
    assert(out.deep_view() =~= requests.deep_view());
    out
}

} // verus!
