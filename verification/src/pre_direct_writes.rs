//! Preparing the commit of a batch of writes for signing.
//!
//! The caller must own the repository, the account must not be deactivated
//! and the batch must hold no more than 200 operations. Then the operations
//! are prepared and the commit generator says what the next commit would be.
//! The answer carries the commit and, in hexadecimal, its canonical bytes,
//! over which the key holder signs. Nothing is stored.

use crate::collab::{
    AccountLookup, AccountLookupView, AccountQuery, AccountQueryView, AccountView,
};
use crate::commit::{CommitError, UnsignedCommit, UnsignedCommitView};
use crate::content_id::{parse_optional_cid, parsed_optional_cid};
use crate::error::{ApiError, RequestFault};
use crate::hexcode::{bytes_to_hex, hex_encoded};
use crate::lexicon::{
    PreDirectWritesInput, PreDirectWritesInputRefWrite, PreDirectWritesInputRefWriteView,
    PreDirectWritesInputView, PreDirectWritesOutput, PreDirectWritesOutputView,
};
use crate::write_flow::{
    check_writer, commit_failure, copy_requests, from_commit, from_prepare, pair_up, paired,
    prepare_failure, write_refusal, Credentials, CredentialsView,
};
use crate::writes::{
    pre_write_request, prepare_batch, prepared_batch, request_of_pre_write, within_limit,
    Assessment, AssessmentView, PreparedWrite, PreparedWriteView, WriteRequest,
    WriteRequestView, MAX_WRITES,
};
use vstd::prelude::*;

verus! {

/// The station at which a run waits.
#[derive(Clone, Copy, Debug, PartialEq, Eq, Structural)]
pub enum PreDirectStep {
    /// The account store has been asked for the account.
    AwaitAccount,
    /// The operations have been given out to be assessed.
    AwaitAssessment,
    /// The commit generator has been asked for the unsigned commit.
    AwaitCommit,
}

impl DeepView for PreDirectStep {
    type V = PreDirectStep;

    open spec fn deep_view(&self) -> PreDirectStep {
        *self
    }
}

/// Asks the commit generator for the unsigned commit of a batch.
#[derive(Clone, Debug, PartialEq, Eq)]
pub struct CommitRequest {
    pub did: String,
    pub writes: Vec<PreparedWrite>,
    /// The commit that the caller expects to be live, if it names one.
    pub swap_commit: Option<String>,
}

/// What a [`CommitRequest`] holds, as plain values.
pub struct CommitRequestView {
    pub did: Seq<char>,
    pub writes: Seq<PreparedWriteView>,
    pub swap_commit: Option<Seq<char>>,
}

impl DeepView for CommitRequest {
    type V = CommitRequestView;

    open spec fn deep_view(&self) -> CommitRequestView {
        CommitRequestView {
            did: self.did.deep_view(),
            writes: self.writes.deep_view(),
            swap_commit: self.swap_commit.deep_view(),
        }
    }
}

impl View for CommitRequest {
    type V = CommitRequestView;

    open spec fn view(&self) -> CommitRequestView {
        self.deep_view()
    }
}

/// An unsigned commit with its canonical bytes, where they could be made.
#[derive(Clone, Debug, PartialEq, Eq)]
pub struct Draft {
    pub commit: UnsignedCommit,
    pub encoded: Option<Vec<u8>>,
}

/// What a [`Draft`] holds, as plain values.
pub struct DraftView {
    pub commit: UnsignedCommitView,
    pub encoded: Option<Seq<u8>>,
}

impl DeepView for Draft {
    type V = DraftView;

    open spec fn deep_view(&self) -> DraftView {
        DraftView {
            commit: self.commit.deep_view(),
            encoded: self.encoded.deep_view(),
        }
    }
}

impl View for Draft {
    type V = DraftView;

    open spec fn view(&self) -> DraftView {
        self.deep_view()
    }
}

/// What the commit generator gave when asked for an unsigned commit.
#[derive(Clone, Debug, PartialEq, Eq)]
pub enum DraftOutcome {
    Drafted(Draft),
    Refused(CommitError),
    /// The object store failed.
    Failed,
}

/// What a [`DraftOutcome`] holds, as plain values.
pub enum DraftOutcomeView {
    Drafted(DraftView),
    Refused(CommitError),
    Failed,
}

impl DeepView for DraftOutcome {
    type V = DraftOutcomeView;

    open spec fn deep_view(&self) -> DraftOutcomeView {
        match self {
            DraftOutcome::Drafted(inner) => DraftOutcomeView::Drafted(inner.deep_view()),
            DraftOutcome::Refused(inner) => DraftOutcomeView::Refused(inner.deep_view()),
            DraftOutcome::Failed => DraftOutcomeView::Failed,
        }
    }
}

impl View for DraftOutcome {
    type V = DraftOutcomeView;

    open spec fn view(&self) -> DraftOutcomeView {
        self.deep_view()
    }
}

/// What a run has established so far.
#[derive(Clone, Debug, PartialEq, Eq)]
pub struct PreDirectWritesState {
    pub step: PreDirectStep,
    pub validate: Option<bool>,
    pub swap_commit: Option<String>,
    pub auth: Option<Credentials>,
    pub requests: Vec<WriteRequest>,
    /// The identity of the account, once it has been found; empty until then.
    pub did: String,
}

/// What a [`PreDirectWritesState`] holds, as plain values.
pub struct PreDirectWritesStateView {
    pub step: PreDirectStep,
    pub validate: Option<bool>,
    pub swap_commit: Option<Seq<char>>,
    pub auth: Option<CredentialsView>,
    pub requests: Seq<WriteRequestView>,
    pub did: Seq<char>,
}

impl DeepView for PreDirectWritesState {
    type V = PreDirectWritesStateView;

    open spec fn deep_view(&self) -> PreDirectWritesStateView {
        PreDirectWritesStateView {
            step: self.step.deep_view(),
            validate: self.validate.deep_view(),
            swap_commit: self.swap_commit.deep_view(),
            auth: self.auth.deep_view(),
            requests: self.requests.deep_view(),
            did: self.did.deep_view(),
        }
    }
}

impl View for PreDirectWritesState {
    type V = PreDirectWritesStateView;

    open spec fn view(&self) -> PreDirectWritesStateView {
        self.deep_view()
    }
}

/// What a collaborator handed back.
#[derive(Clone, Debug, PartialEq, Eq)]
pub enum PreDirectEvent {
    Account(AccountLookup),
    Assessed(Vec<Assessment>),
    Drafted(DraftOutcome),
}

/// What a [`PreDirectEvent`] holds, as plain values.
pub enum PreDirectEventView {
    Account(AccountLookupView),
    Assessed(Seq<AssessmentView>),
    Drafted(DraftOutcomeView),
}

impl DeepView for PreDirectEvent {
    type V = PreDirectEventView;

    open spec fn deep_view(&self) -> PreDirectEventView {
        match self {
            PreDirectEvent::Account(inner) => PreDirectEventView::Account(inner.deep_view()),
            PreDirectEvent::Assessed(inner) => PreDirectEventView::Assessed(inner.deep_view()),
            PreDirectEvent::Drafted(inner) => PreDirectEventView::Drafted(inner.deep_view()),
        }
    }
}

impl View for PreDirectEvent {
    type V = PreDirectEventView;

    open spec fn view(&self) -> PreDirectEventView {
        self.deep_view()
    }
}

/// What to do next.
#[derive(Clone, Debug, PartialEq, Eq)]
pub enum PreDirectAction {
    /// Ask the account store for the account.
    GetAccount(AccountQuery),
    /// Have each operation assessed: its record validated, a fresh key drawn.
    Assess(Vec<WriteRequest>),
    /// Ask the commit generator for the unsigned commit.
    GenerateCommit(CommitRequest),
    /// The run has ended; answer the request with this.
    Succeed(PreDirectWritesOutput),
    /// The run has ended; answer the request with this error.
    Fail(ApiError),
}

/// What a [`PreDirectAction`] holds, as plain values.
pub enum PreDirectActionView {
    GetAccount(AccountQueryView),
    Assess(Seq<WriteRequestView>),
    GenerateCommit(CommitRequestView),
    Succeed(PreDirectWritesOutputView),
    Fail(ApiError),
}

impl DeepView for PreDirectAction {
    type V = PreDirectActionView;

    open spec fn deep_view(&self) -> PreDirectActionView {
        match self {
            PreDirectAction::GetAccount(inner) => PreDirectActionView::GetAccount(inner.deep_view()),
            PreDirectAction::Assess(inner) => PreDirectActionView::Assess(inner.deep_view()),
            PreDirectAction::GenerateCommit(inner) => PreDirectActionView::GenerateCommit(inner.deep_view()),
            PreDirectAction::Succeed(inner) => PreDirectActionView::Succeed(inner.deep_view()),
            PreDirectAction::Fail(inner) => PreDirectActionView::Fail(inner.deep_view()),
        }
    }
}

impl View for PreDirectAction {
    type V = PreDirectActionView;

    open spec fn view(&self) -> PreDirectActionView {
        self.deep_view()
    }
}

/// One turn of a run.
#[derive(Clone, Debug, PartialEq, Eq)]
pub struct PreDirectTurn {
    pub next: Option<PreDirectWritesState>,
    pub action: PreDirectAction,
}

/// What a [`PreDirectTurn`] holds, as plain values.
pub struct PreDirectTurnView {
    pub next: Option<PreDirectWritesStateView>,
    pub action: PreDirectActionView,
}

impl DeepView for PreDirectTurn {
    type V = PreDirectTurnView;

    open spec fn deep_view(&self) -> PreDirectTurnView {
        PreDirectTurnView {
            next: self.next.deep_view(),
            action: self.action.deep_view(),
        }
    }
}

impl View for PreDirectTurn {
    type V = PreDirectTurnView;

    open spec fn view(&self) -> PreDirectTurnView {
        self.deep_view()
    }
}

/// The turn that ends a run with an error.
pub open spec fn pre_direct_failed(e: ApiError) -> PreDirectTurnView {
    PreDirectTurnView { next: None, action: PreDirectActionView::Fail(e) }
}

/// The operations that the writes of a request ask for, in order.
pub open spec fn pre_direct_requests(writes: Seq<PreDirectWritesInputRefWriteView>) -> Seq<
    WriteRequestView,
> {
    Seq::new(writes.len(), |i: int| request_of_pre_write(writes[i]))
}

/// The first turn of a run: the account store is asked for the account,
/// deactivated accounts included.
pub open spec fn pre_direct_writes_first(
    input: PreDirectWritesInputView,
    auth: Option<CredentialsView>,
) -> PreDirectTurnView {
    PreDirectTurnView {
        next: Some(
            PreDirectWritesStateView {
                step: PreDirectStep::AwaitAccount,
                validate: input.validate,
                swap_commit: input.swap_commit,
                auth: auth,
                requests: pre_direct_requests(input.writes),
                did: Seq::empty(),
            },
        ),
        action: PreDirectActionView::GetAccount(
            AccountQueryView {
                identifier: input.repo,
                include_deactivated: Some(true),
                include_taken_down: None,
            },
        ),
    }
}

/// Why a batch may not go on to the object store, if it may not: the
/// account must not be deactivated, the caller must own the repository, and
/// the batch must hold no more than 200 operations.
pub open spec fn pre_direct_refusal(state: PreDirectWritesStateView, account: AccountView) -> Option<
    ApiError,
> {
    if account.deactivated {
        Some(ApiError::InvalidRequest(RequestFault::AccountDeactivated))
    } else {
        match write_refusal(state.auth, account.did) {
            Some(e) => Some(e),
            None => if state.requests.len() > MAX_WRITES {
                Some(ApiError::InvalidRequest(RequestFault::TooManyWrites))
            } else {
                None
            },
        }
    }
}

/// The request to the commit generator for a batch that has been assessed,
/// or the error that ends the run.
pub open spec fn pre_direct_request(
    state: PreDirectWritesStateView,
    assessments: Seq<AssessmentView>,
) -> Result<CommitRequestView, ApiError> {
    match paired(state.requests, assessments) {
        None => Err(ApiError::RuntimeError),
        Some(writes) => match prepared_batch(state.did, writes, state.validate) {
            Err(e) => Err(prepare_failure(e)),
            Ok(prepared) => match parsed_optional_cid(state.swap_commit) {
                Err(_) => Err(ApiError::InvalidRequest(RequestFault::SwapCommitConvert)),
                Ok(swap_commit) => Ok(
                    CommitRequestView { did: state.did, writes: prepared, swap_commit: swap_commit },
                ),
            },
        },
    }
}

/// The answer to the request for a commit that the generator drafted: the
/// fields of the commit, and its canonical bytes in hexadecimal. A commit
/// whose bytes could not be made is an error.
pub open spec fn pre_direct_output(draft: DraftView) -> Result<PreDirectWritesOutputView, ApiError> {
    match draft.encoded {
        None => Err(ApiError::InvalidRequest(RequestFault::EncodingCommit)),
        Some(bytes) => Ok(
            PreDirectWritesOutputView {
                did: draft.commit.did,
                rev: draft.commit.rev,
                data: draft.commit.data,
                prev: draft.commit.prev,
                version: draft.commit.version,
                un_sign_bytes: hex_encoded(bytes),
            },
        ),
    }
}

/// The turn that follows the answer `event` in the state `state`.
pub open spec fn pre_direct_writes_next(
    state: PreDirectWritesStateView,
    event: PreDirectEventView,
) -> PreDirectTurnView {
    match (state.step, event) {
        (PreDirectStep::AwaitAccount, PreDirectEventView::Account(AccountLookupView::Found(account))) => {
            match pre_direct_refusal(state, account) {
                Some(e) => pre_direct_failed(e),
                None => PreDirectTurnView {
                    next: Some(
                        PreDirectWritesStateView {
                            step: PreDirectStep::AwaitAssessment,
                            did: account.did,
                            ..state
                        },
                    ),
                    action: PreDirectActionView::Assess(state.requests),
                },
            }
        },
        (PreDirectStep::AwaitAccount, PreDirectEventView::Account(AccountLookupView::Absent)) => {
            pre_direct_failed(ApiError::InvalidRequest(RequestFault::RepoNotFound))
        },
        (PreDirectStep::AwaitAccount, PreDirectEventView::Account(AccountLookupView::Failed)) => {
            pre_direct_failed(ApiError::Storage)
        },
        (PreDirectStep::AwaitAssessment, PreDirectEventView::Assessed(assessments)) => {
            match pre_direct_request(state, assessments) {
                Err(e) => pre_direct_failed(e),
                Ok(request) => PreDirectTurnView {
                    next: Some(
                        PreDirectWritesStateView {
                            step: PreDirectStep::AwaitCommit,
                            requests: Seq::empty(),
                            ..state
                        },
                    ),
                    action: PreDirectActionView::GenerateCommit(request),
                },
            }
        },
        (PreDirectStep::AwaitCommit, PreDirectEventView::Drafted(DraftOutcomeView::Drafted(draft))) => {
            match pre_direct_output(draft) {
                Ok(output) => PreDirectTurnView {
                    next: None,
                    action: PreDirectActionView::Succeed(output),
                },
                Err(e) => pre_direct_failed(e),
            }
        },
        (PreDirectStep::AwaitCommit, PreDirectEventView::Drafted(DraftOutcomeView::Refused(e))) => {
            pre_direct_failed(commit_failure(e))
        },
        (PreDirectStep::AwaitCommit, PreDirectEventView::Drafted(DraftOutcomeView::Failed)) => {
            pre_direct_failed(ApiError::Storage)
        },
        _ => pre_direct_failed(ApiError::RuntimeError),
    }
}

/// The turn that ends a run with an error.
fn fail(e: ApiError) -> (out: PreDirectTurn)
    ensures
        out@ == pre_direct_failed(e),
{
    PreDirectTurn { next: None, action: PreDirectAction::Fail(e) }
}

/// The operations that the writes of a request ask for, in order.
fn requests_of(writes: Vec<PreDirectWritesInputRefWrite>) -> (out: Vec<WriteRequest>)
    ensures
        out.deep_view() == pre_direct_requests(writes.deep_view()),
{
    let ghost all = writes@;
    let mut out: Vec<WriteRequest> = Vec::new();
    for write in it: writes.into_iter()
        invariant
            it.seq() == all,
            out.len() == it.index(),
            forall|k: int| 0 <= k < out.len() ==> (#[trigger] out[k])@ == request_of_pre_write(all[k]@),
    {
        out.push(pre_write_request(write));
    }
    assert(out.deep_view() =~= pre_direct_requests(writes.deep_view()));
    out
}

/// The first turn of a run, for the credentials that the request came with.
pub fn pre_direct_writes_start(input: PreDirectWritesInput, auth: Option<Credentials>) -> (out:
    PreDirectTurn)
    ensures
        out@ == pre_direct_writes_first(input@, auth.deep_view()),
{
    let PreDirectWritesInput { repo, validate, writes, swap_commit } = input;
    PreDirectTurn {
        next: Some(
            PreDirectWritesState {
                step: PreDirectStep::AwaitAccount,
                validate,
                swap_commit,
                auth,
                requests: requests_of(writes),
                did: String::new(),
            },
        ),
        action: PreDirectAction::GetAccount(
            AccountQuery {
                identifier: repo,
                include_deactivated: Some(true),
                include_taken_down: None,
            },
        ),
    }
}

/// The answer to the request for a commit that the generator drafted.
pub fn pre_writes_output(draft: Draft) -> (out: Result<PreDirectWritesOutput, ApiError>)
    ensures
        crate::model::ok_view(out) == pre_direct_output(draft@),
{
    let Draft { commit, encoded } = draft;
    match encoded {
        None => Err(ApiError::InvalidRequest(RequestFault::EncodingCommit)),
        Some(bytes) => {
            assert(bytes.deep_view() =~= bytes@);
            Ok(
                PreDirectWritesOutput {
                    did: commit.did,
                    rev: commit.rev,
                    data: commit.data,
                    prev: commit.prev,
                    version: commit.version,
                    un_sign_bytes: bytes_to_hex(&bytes),
                },
            )
        },
    }
}

/// The turn that follows the answer `event` in the state `state`.
pub fn pre_direct_writes_step(state: PreDirectWritesState, event: PreDirectEvent) -> (out:
    PreDirectTurn)
    ensures
        out@ == pre_direct_writes_next(state@, event@),
{
    match (state.step, event) {
        (PreDirectStep::AwaitAccount, PreDirectEvent::Account(AccountLookup::Found(account))) => {
            if account.deactivated {
                return fail(ApiError::InvalidRequest(RequestFault::AccountDeactivated));
            }
            match check_writer(&state.auth, &account.did) {
                Some(e) => {
                    return fail(e);
                },
                None => {},
            }
            assert(state@.requests.len() == state.requests.len());
            if !within_limit(state.requests.len()) {
                return fail(ApiError::InvalidRequest(RequestFault::TooManyWrites));
            }
            let action = PreDirectAction::Assess(copy_requests(&state.requests));
            let mut state = state;
            state.step = PreDirectStep::AwaitAssessment;
            state.did = account.did;
            PreDirectTurn { next: Some(state), action }
        },
        (PreDirectStep::AwaitAccount, PreDirectEvent::Account(AccountLookup::Absent)) => fail(
            ApiError::InvalidRequest(RequestFault::RepoNotFound),
        ),
        (PreDirectStep::AwaitAccount, PreDirectEvent::Account(AccountLookup::Failed)) => fail(
            ApiError::Storage,
        ),
        (PreDirectStep::AwaitAssessment, PreDirectEvent::Assessed(assessments)) => {
            let PreDirectWritesState { step: _, validate, swap_commit, auth, requests, did } = state;
            let writes = match pair_up(requests, assessments) {
                Some(writes) => writes,
                None => {
                    return fail(ApiError::RuntimeError);
                },
            };
            let prepared = match prepare_batch(&did, writes, validate) {
                Ok(prepared) => prepared,
                Err(e) => {
                    return fail(from_prepare(e));
                },
            };
            let expected = match parse_optional_cid(&swap_commit) {
                Ok(expected) => expected,
                Err(_) => {
                    return fail(ApiError::InvalidRequest(RequestFault::SwapCommitConvert));
                },
            };
            let action = PreDirectAction::GenerateCommit(
                CommitRequest { did: did.clone(), writes: prepared, swap_commit: expected },
            );
            let requests: Vec<WriteRequest> = Vec::new();
            assert(requests.deep_view() =~= Seq::empty());
            PreDirectTurn {
                next: Some(
                    PreDirectWritesState {
                        step: PreDirectStep::AwaitCommit,
                        validate,
                        swap_commit,
                        auth,
                        requests,
                        did,
                    },
                ),
                action,
            }
        },
        (PreDirectStep::AwaitCommit, PreDirectEvent::Drafted(DraftOutcome::Drafted(draft))) => {
            match pre_writes_output(draft) {
                Ok(output) => PreDirectTurn { next: None, action: PreDirectAction::Succeed(output) },
                Err(e) => fail(e),
            }
        },
        (PreDirectStep::AwaitCommit, PreDirectEvent::Drafted(DraftOutcome::Refused(e))) => fail(
            from_commit(e),
        ),
        (PreDirectStep::AwaitCommit, PreDirectEvent::Drafted(DraftOutcome::Failed)) => fail(
            ApiError::Storage,
        ),
        _ => fail(ApiError::RuntimeError),
    }
}

/// A batch of more than 200 operations never reaches the object store: from
/// a state that holds such a batch no turn asks for an assessment or for a
/// commit, and where the run goes on, the batch is still the same.
pub proof fn lemma_oversized_batch_stays_out(
    state: PreDirectWritesStateView,
    event: PreDirectEventView,
)
    requires
        state.requests.len() > 200,
    ensures
        !(pre_direct_writes_next(state, event).action is Assess),
        !(pre_direct_writes_next(state, event).action is GenerateCommit),
        pre_direct_writes_next(state, event).next matches Some(next) ==> next.requests
            == state.requests,
{
    if state.step == PreDirectStep::AwaitAssessment && event is Assessed {
        let assessments = event->Assessed_0;
        if paired(state.requests, assessments) is Some {
            let writes = paired(state.requests, assessments)->0;
            assert(writes.len() == state.requests.len());
            crate::writes::lemma_oversized_batch_is_refused(state.did, writes, state.validate);
        }
    }
}

/// Asking twice gives the same answer: the turn that follows an answer
/// depends on the state and the answer alone, and the bytes to sign are the
/// hexadecimal form of the canonical bytes of the commit.
pub proof fn lemma_same_draft_same_answer(first: DraftView, second: DraftView)
    requires
        first == second,
    ensures
        pre_direct_output(first) == pre_direct_output(second),
        pre_direct_output(first) matches Ok(output) ==> output.un_sign_bytes == hex_encoded(
            first.encoded->0,
        ) && output.un_sign_bytes.len() == 2 * first.encoded->0.len(),
{
}

} // verus!
