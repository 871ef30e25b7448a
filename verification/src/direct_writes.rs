//! Applying a batch of writes whose commit was signed outside the server.
//!
//! The account is looked up and checked against the identity document of
//! its ledger address, the caller must be the owner of the repository, and
//! the batch must hold no more than 200 operations; all this before the
//! object store is touched. Then the operations are prepared, the commit
//! generator applies them under the signed root, the commit is announced and
//! the account store learns the new root.
//!
//! The run is a sequence of turns, as for the other requests. From the
//! event handed to the log until the end of the run the caller holds the log
//! for itself.

use crate::binding::{binding, check_binding};
use crate::collab::{
    copy_commit, Account, AccountLookup, AccountLookupView, AccountQuery, AccountQueryView,
    AccountView, CommitEvent, CommitEventView, Emission, EmissionView, EventKind, Outcome,
    Resolution, ResolutionView, RootUpdate, RootUpdateView, SequenceOutcome,
    SequenceOutcomeView,
};
use crate::commit::{AppliedCommit, AppliedCommitView, CommitError};
use crate::content_id::{parse_optional_cid, parsed_optional_cid};
use crate::error::{ApiError, ErrorClass, RequestFault};
use crate::lexicon::{
    CommitMeta, CommitMetaView, DirectWritesInput, DirectWritesInputRefWrite,
    DirectWritesInputRefWriteView, DirectWritesInputView, DirectWritesOutput,
    DirectWritesOutputRefWrite, DirectWritesOutputRefWriteView, DirectWritesOutputView,
    SignedRoot, SignedRootView,
};
use crate::write_flow::{
    check_writer, commit_failure, copy_requests, from_commit, from_prepare, pair_up, paired,
    prepare_failure, write_refusal, Credentials, CredentialsView,
};
use crate::writes::{
    direct_write_request, output_result, output_results, prepare_batch, prepared_batch,
    request_of_direct_write, within_limit, Assessment, AssessmentView, PreparedWrite,
    PreparedWriteView, WriteRequest, WriteRequestView, MAX_WRITES,
};
use vstd::prelude::*;

verus! {

/// The station at which a run waits.
#[derive(Clone, Copy, Debug, PartialEq, Eq, Structural)]
pub enum DirectStep {
    /// The account store has been asked for the account.
    AwaitAccount,
    /// The resolver has been asked for the identity document.
    AwaitDocument,
    /// The operations have been given out to be assessed.
    AwaitAssessment,
    /// The commit generator has been asked to apply the batch.
    AwaitApply,
    /// The log has been handed the commit event.
    AwaitCommitEvent,
    /// The account store has been told the new root.
    AwaitRootUpdate,
}

impl DeepView for DirectStep {
    type V = DirectStep;

    open spec fn deep_view(&self) -> DirectStep {
        *self
    }
}

/// Asks the commit generator to apply a signed batch.
#[derive(Clone, Debug, PartialEq, Eq)]
pub struct Application {
    pub did: String,
    pub writes: Vec<PreparedWrite>,
    /// The commit that the caller expects to be live, if it names one.
    pub swap_commit: Option<String>,
    pub signing_key: String,
    pub root: SignedRoot,
}

/// What a [`Application`] holds, as plain values.
pub struct ApplicationView {
    pub did: Seq<char>,
    pub writes: Seq<PreparedWriteView>,
    pub swap_commit: Option<Seq<char>>,
    pub signing_key: Seq<char>,
    pub root: SignedRootView,
}

impl DeepView for Application {
    type V = ApplicationView;

    open spec fn deep_view(&self) -> ApplicationView {
        ApplicationView {
            did: self.did.deep_view(),
            writes: self.writes.deep_view(),
            swap_commit: self.swap_commit.deep_view(),
            signing_key: self.signing_key.deep_view(),
            root: self.root.deep_view(),
        }
    }
}

impl View for Application {
    type V = ApplicationView;

    open spec fn view(&self) -> ApplicationView {
        self.deep_view()
    }
}

/// What the commit generator gave when asked to apply a batch.
#[derive(Clone, Debug, PartialEq, Eq)]
pub enum ApplyOutcome {
    Applied(AppliedCommit),
    /// The generator refused; nothing has changed.
    Refused(CommitError),
    /// The object store failed.
    Failed,
}

/// What a [`ApplyOutcome`] holds, as plain values.
pub enum ApplyOutcomeView {
    Applied(AppliedCommitView),
    Refused(CommitError),
    Failed,
}

impl DeepView for ApplyOutcome {
    type V = ApplyOutcomeView;

    open spec fn deep_view(&self) -> ApplyOutcomeView {
        match self {
            ApplyOutcome::Applied(inner) => ApplyOutcomeView::Applied(inner.deep_view()),
            ApplyOutcome::Refused(inner) => ApplyOutcomeView::Refused(inner.deep_view()),
            ApplyOutcome::Failed => ApplyOutcomeView::Failed,
        }
    }
}

impl View for ApplyOutcome {
    type V = ApplyOutcomeView;

    open spec fn view(&self) -> ApplyOutcomeView {
        self.deep_view()
    }
}

/// What a run has established so far.
#[derive(Clone, Debug, PartialEq, Eq)]
pub struct DirectWritesState {
    pub step: DirectStep,
    pub validate: Option<bool>,
    pub swap_commit: Option<String>,
    pub signing_key: String,
    pub ckb_addr: String,
    pub root: SignedRoot,
    pub auth: Option<Credentials>,
    pub requests: Vec<WriteRequest>,
    /// The account, once it has been found.
    pub account: Option<Account>,
    /// The commit, once it has been applied.
    pub commit: Option<AppliedCommit>,
    /// What is reported of each operation, once they are prepared.
    pub results: Vec<DirectWritesOutputRefWrite>,
}

/// What a [`DirectWritesState`] holds, as plain values.
pub struct DirectWritesStateView {
    pub step: DirectStep,
    pub validate: Option<bool>,
    pub swap_commit: Option<Seq<char>>,
    pub signing_key: Seq<char>,
    pub ckb_addr: Seq<char>,
    pub root: SignedRootView,
    pub auth: Option<CredentialsView>,
    pub requests: Seq<WriteRequestView>,
    pub account: Option<AccountView>,
    pub commit: Option<AppliedCommitView>,
    pub results: Seq<DirectWritesOutputRefWriteView>,
}

impl DeepView for DirectWritesState {
    type V = DirectWritesStateView;

    open spec fn deep_view(&self) -> DirectWritesStateView {
        DirectWritesStateView {
            step: self.step.deep_view(),
            validate: self.validate.deep_view(),
            swap_commit: self.swap_commit.deep_view(),
            signing_key: self.signing_key.deep_view(),
            ckb_addr: self.ckb_addr.deep_view(),
            root: self.root.deep_view(),
            auth: self.auth.deep_view(),
            requests: self.requests.deep_view(),
            account: self.account.deep_view(),
            commit: self.commit.deep_view(),
            results: self.results.deep_view(),
        }
    }
}

impl View for DirectWritesState {
    type V = DirectWritesStateView;

    open spec fn view(&self) -> DirectWritesStateView {
        self.deep_view()
    }
}

/// What a collaborator handed back.
#[derive(Clone, Debug, PartialEq, Eq)]
pub enum DirectEvent {
    Account(AccountLookup),
    Document(Resolution),
    Assessed(Vec<Assessment>),
    Applied(ApplyOutcome),
    Sequenced(SequenceOutcome),
    RootUpdated(Outcome),
}

/// What a [`DirectEvent`] holds, as plain values.
pub enum DirectEventView {
    Account(AccountLookupView),
    Document(ResolutionView),
    Assessed(Seq<AssessmentView>),
    Applied(ApplyOutcomeView),
    Sequenced(SequenceOutcomeView),
    RootUpdated(Outcome),
}

impl DeepView for DirectEvent {
    type V = DirectEventView;

    open spec fn deep_view(&self) -> DirectEventView {
        match self {
            DirectEvent::Account(inner) => DirectEventView::Account(inner.deep_view()),
            DirectEvent::Document(inner) => DirectEventView::Document(inner.deep_view()),
            DirectEvent::Assessed(inner) => DirectEventView::Assessed(inner.deep_view()),
            DirectEvent::Applied(inner) => DirectEventView::Applied(inner.deep_view()),
            DirectEvent::Sequenced(inner) => DirectEventView::Sequenced(inner.deep_view()),
            DirectEvent::RootUpdated(inner) => DirectEventView::RootUpdated(inner.deep_view()),
        }
    }
}

impl View for DirectEvent {
    type V = DirectEventView;

    open spec fn view(&self) -> DirectEventView {
        self.deep_view()
    }
}

/// What to do next.
#[derive(Clone, Debug, PartialEq, Eq)]
pub enum DirectAction {
    /// Ask the account store for the account.
    GetAccount(AccountQuery),
    /// Ask the resolver for the identity document of the ledger address.
    Resolve(String),
    /// Have each operation assessed: its record validated, a fresh key drawn.
    Assess(Vec<WriteRequest>),
    /// Ask the commit generator to apply the batch.
    VerifyWrites(Application),
    /// Hand the event to the log.
    Emit(Emission),
    /// Tell the account store the new root.
    UpdateRepoRoot(RootUpdate),
    /// The run has ended; answer the request with this.
    Succeed(DirectWritesOutput),
    /// The run has ended; answer the request with this error.
    Fail(ApiError),
}

/// What a [`DirectAction`] holds, as plain values.
pub enum DirectActionView {
    GetAccount(AccountQueryView),
    Resolve(Seq<char>),
    Assess(Seq<WriteRequestView>),
    VerifyWrites(ApplicationView),
    Emit(EmissionView),
    UpdateRepoRoot(RootUpdateView),
    Succeed(DirectWritesOutputView),
    Fail(ApiError),
}

impl DeepView for DirectAction {
    type V = DirectActionView;

    open spec fn deep_view(&self) -> DirectActionView {
        match self {
            DirectAction::GetAccount(inner) => DirectActionView::GetAccount(inner.deep_view()),
            DirectAction::Resolve(inner) => DirectActionView::Resolve(inner.deep_view()),
            DirectAction::Assess(inner) => DirectActionView::Assess(inner.deep_view()),
            DirectAction::VerifyWrites(inner) => DirectActionView::VerifyWrites(inner.deep_view()),
            DirectAction::Emit(inner) => DirectActionView::Emit(inner.deep_view()),
            DirectAction::UpdateRepoRoot(inner) => DirectActionView::UpdateRepoRoot(inner.deep_view()),
            DirectAction::Succeed(inner) => DirectActionView::Succeed(inner.deep_view()),
            DirectAction::Fail(inner) => DirectActionView::Fail(inner.deep_view()),
        }
    }
}

impl View for DirectAction {
    type V = DirectActionView;

    open spec fn view(&self) -> DirectActionView {
        self.deep_view()
    }
}

/// One turn of a run.
#[derive(Clone, Debug, PartialEq, Eq)]
pub struct DirectTurn {
    pub next: Option<DirectWritesState>,
    pub action: DirectAction,
}

/// What a [`DirectTurn`] holds, as plain values.
pub struct DirectTurnView {
    pub next: Option<DirectWritesStateView>,
    pub action: DirectActionView,
}

impl DeepView for DirectTurn {
    type V = DirectTurnView;

    open spec fn deep_view(&self) -> DirectTurnView {
        DirectTurnView {
            next: self.next.deep_view(),
            action: self.action.deep_view(),
        }
    }
}

impl View for DirectTurn {
    type V = DirectTurnView;

    open spec fn view(&self) -> DirectTurnView {
        self.deep_view()
    }
}

/// The turn that ends a run with an error.
pub open spec fn direct_failed(e: ApiError) -> DirectTurnView {
    DirectTurnView { next: None, action: DirectActionView::Fail(e) }
}

/// The operations that the writes of a request ask for, in order.
pub open spec fn direct_requests(writes: Seq<DirectWritesInputRefWriteView>) -> Seq<WriteRequestView> {
    Seq::new(writes.len(), |i: int| request_of_direct_write(writes[i]))
}

/// The first turn of a run: a request without a ledger address is refused,
/// any other asks for the account, deactivated accounts included.
pub open spec fn direct_writes_first(
    input: DirectWritesInputView,
    auth: Option<CredentialsView>,
) -> DirectTurnView {
    match input.ckb_addr {
        None => direct_failed(ApiError::CkbAddrNotFound),
        Some(ckb_addr) => DirectTurnView {
            next: Some(
                DirectWritesStateView {
                    step: DirectStep::AwaitAccount,
                    validate: input.validate,
                    swap_commit: input.swap_commit,
                    signing_key: input.signing_key,
                    ckb_addr: ckb_addr,
                    root: input.root,
                    auth: auth,
                    requests: direct_requests(input.writes),
                    account: None,
                    commit: None,
                    results: Seq::empty(),
                },
            ),
            action: DirectActionView::GetAccount(
                AccountQueryView {
                    identifier: input.repo,
                    include_deactivated: Some(true),
                    include_taken_down: None,
                },
            ),
        },
    }
}

/// Why a batch may not go on to the object store, if it may not: the
/// account and the key must be bound by the identity document, the account
/// must not be deactivated, the caller must own the repository, and the
/// batch must hold no more than 200 operations.
pub open spec fn direct_refusal(
    state: DirectWritesStateView,
    account: AccountView,
    resolution: ResolutionView,
) -> Option<ApiError> {
    match resolution {
        ResolutionView::Failed(e) => Some(e),
        ResolutionView::Found(doc) => match binding(doc, account.handle, state.signing_key) {
            Err(e) => Some(e),
            Ok(_) => if account.deactivated {
                Some(ApiError::InvalidRequest(RequestFault::AccountDeactivated))
            } else {
                match write_refusal(state.auth, account.did) {
                    Some(e) => Some(e),
                    None => if state.requests.len() > MAX_WRITES {
                        Some(ApiError::InvalidRequest(RequestFault::TooManyWrites))
                    } else {
                        None
                    },
                }
            },
        },
    }
}

/// The request to the commit generator for a batch that has been assessed,
/// with what will be reported of each operation; or the error that ends the
/// run: assessments that do not match the operations, an operation that
/// cannot be prepared, an expected commit that cannot be read.
pub open spec fn direct_application(
    state: DirectWritesStateView,
    account: AccountView,
    assessments: Seq<AssessmentView>,
) -> Result<(ApplicationView, Seq<DirectWritesOutputRefWriteView>), ApiError> {
    match paired(state.requests, assessments) {
        None => Err(ApiError::RuntimeError),
        Some(writes) => match prepared_batch(account.did, writes, state.validate) {
            Err(e) => Err(prepare_failure(e)),
            Ok(prepared) => match parsed_optional_cid(state.swap_commit) {
                Err(_) => Err(ApiError::InvalidRequest(RequestFault::SwapCommitConvert)),
                Ok(swap_commit) => Ok(
                    (
                        ApplicationView {
                            did: account.did,
                            writes: prepared,
                            swap_commit: swap_commit,
                            signing_key: state.signing_key,
                            root: state.root,
                        },
                        Seq::new(prepared.len(), |i: int| output_result(prepared[i], state.validate)),
                    ),
                ),
            },
        },
    }
}

/// The turn that follows the answer `event` in the state `state`.
pub open spec fn direct_writes_next(state: DirectWritesStateView, event: DirectEventView) -> DirectTurnView {
    match (state.step, event) {
        (DirectStep::AwaitAccount, DirectEventView::Account(AccountLookupView::Found(account))) => {
            if account.ckb_address != Some(state.ckb_addr) {
                direct_failed(ApiError::InvalidRequest(RequestFault::AddressInconsistent))
            } else {
                DirectTurnView {
                    next: Some(
                        DirectWritesStateView {
                            step: DirectStep::AwaitDocument,
                            account: Some(account),
                            ..state
                        },
                    ),
                    action: DirectActionView::Resolve(state.ckb_addr),
                }
            }
        },
        (DirectStep::AwaitAccount, DirectEventView::Account(AccountLookupView::Absent)) => {
            direct_failed(ApiError::InvalidRequest(RequestFault::RepoNotFound))
        },
        (DirectStep::AwaitAccount, DirectEventView::Account(AccountLookupView::Failed)) => {
            direct_failed(ApiError::Storage)
        },
        (DirectStep::AwaitDocument, DirectEventView::Document(resolution)) => match state.account {
            None => direct_failed(ApiError::RuntimeError),
            Some(account) => match direct_refusal(state, account, resolution) {
                Some(e) => direct_failed(e),
                None => DirectTurnView {
                    next: Some(
                        DirectWritesStateView { step: DirectStep::AwaitAssessment, ..state },
                    ),
                    action: DirectActionView::Assess(state.requests),
                },
            },
        },
        (DirectStep::AwaitAssessment, DirectEventView::Assessed(assessments)) => {
            match state.account {
                None => direct_failed(ApiError::RuntimeError),
                Some(account) => match direct_application(state, account, assessments) {
                    Err(e) => direct_failed(e),
                    Ok((application, results)) => DirectTurnView {
                        next: Some(
                            DirectWritesStateView {
                                step: DirectStep::AwaitApply,
                                requests: Seq::empty(),
                                results: results,
                                ..state
                            },
                        ),
                        action: DirectActionView::VerifyWrites(application),
                    },
                },
            }
        },
        (DirectStep::AwaitApply, DirectEventView::Applied(ApplyOutcomeView::Applied(commit))) => {
            match state.account {
                None => direct_failed(ApiError::RuntimeError),
                Some(account) => DirectTurnView {
                    next: Some(
                        DirectWritesStateView {
                            step: DirectStep::AwaitCommitEvent,
                            commit: Some(commit),
                            ..state
                        },
                    ),
                    action: DirectActionView::Emit(
                        EmissionView::Commit(CommitEventView { did: account.did, commit: commit }),
                    ),
                },
            }
        },
        (DirectStep::AwaitApply, DirectEventView::Applied(ApplyOutcomeView::Refused(e))) => {
            direct_failed(commit_failure(e))
        },
        (DirectStep::AwaitApply, DirectEventView::Applied(ApplyOutcomeView::Failed)) => {
            direct_failed(ApiError::Storage)
        },
        (
            DirectStep::AwaitCommitEvent,
            DirectEventView::Sequenced(SequenceOutcomeView::Sequenced(_)),
        ) => match (state.account, state.commit) {
            (Some(account), Some(commit)) => DirectTurnView {
                next: Some(DirectWritesStateView { step: DirectStep::AwaitRootUpdate, ..state }),
                action: DirectActionView::UpdateRepoRoot(
                    RootUpdateView { did: account.did, cid: commit.cid, rev: commit.commit.rev },
                ),
            },
            _ => direct_failed(ApiError::RuntimeError),
        },
        (DirectStep::AwaitCommitEvent, DirectEventView::Sequenced(SequenceOutcomeView::Failed)) => {
            direct_failed(ApiError::Sequencer)
        },
        (DirectStep::AwaitRootUpdate, DirectEventView::RootUpdated(Outcome::Done)) => {
            match state.commit {
                None => direct_failed(ApiError::RuntimeError),
                Some(commit) => DirectTurnView {
                    next: None,
                    action: DirectActionView::Succeed(
                        DirectWritesOutputView {
                            commit: Some(
                                CommitMetaView { cid: commit.cid, rev: commit.commit.rev },
                            ),
                            results: Some(state.results),
                        },
                    ),
                },
            }
        },
        (DirectStep::AwaitRootUpdate, DirectEventView::RootUpdated(Outcome::Failed)) => {
            direct_failed(ApiError::Storage)
        },
        _ => direct_failed(ApiError::RuntimeError),
    }
}

/// The turn that ends a run with an error.
fn fail(e: ApiError) -> (out: DirectTurn)
    ensures
        out@ == direct_failed(e),
{
    DirectTurn { next: None, action: DirectAction::Fail(e) }
}

/// The operations that the writes of a request ask for, in order.
fn requests_of(writes: Vec<DirectWritesInputRefWrite>) -> (out: Vec<WriteRequest>)
    ensures
        out.deep_view() == direct_requests(writes.deep_view()),
{
    let ghost all = writes@;
    let mut out: Vec<WriteRequest> = Vec::new();
    for write in it: writes.into_iter()
        invariant
            it.seq() == all,
            out.len() == it.index(),
            forall|k: int| 0 <= k < out.len() ==> (#[trigger] out[k])@ == request_of_direct_write(all[k]@),
    {
        out.push(direct_write_request(write));
    }
    assert(out.deep_view() =~= direct_requests(writes.deep_view()));
    out
}

/// The first turn of a run, for the credentials that the request came with.
pub fn direct_writes_start(input: DirectWritesInput, auth: Option<Credentials>) -> (out: DirectTurn)
    ensures
        out@ == direct_writes_first(input@, auth.deep_view()),
{
    let DirectWritesInput { repo, validate, writes, swap_commit, signing_key, ckb_addr, root } = input;
    match ckb_addr {
        None => fail(ApiError::CkbAddrNotFound),
        Some(ckb_addr) => {
            let results: Vec<DirectWritesOutputRefWrite> = Vec::new();
            assert(results.deep_view() =~= Seq::empty());
            DirectTurn {
                next: Some(
                    DirectWritesState {
                        step: DirectStep::AwaitAccount,
                        validate,
                        swap_commit,
                        signing_key,
                        ckb_addr,
                        root,
                        auth,
                        requests: requests_of(writes),
                        account: None,
                        commit: None,
                        results,
                    },
                ),
                action: DirectAction::GetAccount(
                    AccountQuery {
                        identifier: repo,
                        include_deactivated: Some(true),
                        include_taken_down: None,
                    },
                ),
            }
        },
    }
}

/// Why a batch may not go on to the object store, if it may not.
fn refusal(state: &DirectWritesState, account: &Account, resolution: &Resolution) -> (out: Option<
    ApiError,
>)
    ensures
        out == direct_refusal(state@, account@, resolution@),
{
    match resolution {
        Resolution::Failed(e) => Some(*e),
        Resolution::Found(doc) => match check_binding(doc, &account.handle, &state.signing_key) {
            Err(e) => Some(e),
            Ok(_) => {
                if account.deactivated {
                    Some(ApiError::InvalidRequest(RequestFault::AccountDeactivated))
                } else {
                    match check_writer(&state.auth, &account.did) {
                        Some(e) => Some(e),
                        None => {
                            assert(state@.requests.len() == state.requests.len());
                            if !within_limit(state.requests.len()) {
                                Some(ApiError::InvalidRequest(RequestFault::TooManyWrites))
                            } else {
                                None
                            }
                        },
                    }
                }
            },
        },
    }
}

/// The turn that follows the answer `event` in the state `state`.
pub fn direct_writes_step(state: DirectWritesState, event: DirectEvent) -> (out: DirectTurn)
    ensures
        out@ == direct_writes_next(state@, event@),
{
    match (state.step, event) {
        (DirectStep::AwaitAccount, DirectEvent::Account(AccountLookup::Found(found))) => {
            let same = match &found.ckb_address {
                Some(address) => *address == state.ckb_addr,
                None => false,
            };
            if !same {
                fail(ApiError::InvalidRequest(RequestFault::AddressInconsistent))
            } else {
                let action = DirectAction::Resolve(state.ckb_addr.clone());
                let mut state = state;
                state.step = DirectStep::AwaitDocument;
                state.account = Some(found);
                DirectTurn { next: Some(state), action }
            }
        },
        (DirectStep::AwaitAccount, DirectEvent::Account(AccountLookup::Absent)) => fail(
            ApiError::InvalidRequest(RequestFault::RepoNotFound),
        ),
        (DirectStep::AwaitAccount, DirectEvent::Account(AccountLookup::Failed)) => fail(
            ApiError::Storage,
        ),
        (DirectStep::AwaitDocument, DirectEvent::Document(resolution)) => {
            let verdict = match &state.account {
                None => Some(ApiError::RuntimeError),
                Some(account) => refusal(&state, account, &resolution),
            };
            match verdict {
                Some(e) => fail(e),
                None => {
                    let action = DirectAction::Assess(copy_requests(&state.requests));
                    let mut state = state;
                    state.step = DirectStep::AwaitAssessment;
                    DirectTurn { next: Some(state), action }
                },
            }
        },
        (DirectStep::AwaitAssessment, DirectEvent::Assessed(assessments)) => {
            let DirectWritesState {
                step: _,
                validate,
                swap_commit,
                signing_key,
                ckb_addr,
                root,
                auth,
                requests,
                account,
                commit,
                results: _,
            } = state;
            let account = match account {
                Some(account) => account,
                None => {
                    return fail(ApiError::RuntimeError);
                },
            };
            let writes = match pair_up(requests, assessments) {
                Some(writes) => writes,
                None => {
                    return fail(ApiError::RuntimeError);
                },
            };
            let prepared = match prepare_batch(&account.did, writes, validate) {
                Ok(prepared) => prepared,
                Err(e) => {
                    return fail(from_prepare(e));
                },
            };
            let expected = match parse_optional_cid(&swap_commit) {
                Ok(expected) => expected,
                Err(_) => {
                    return fail(ApiError::InvalidRequest(RequestFault::SwapCommitConvert));
                },
            };
            let results = output_results(&prepared, validate);
            let action = DirectAction::VerifyWrites(
                Application {
                    did: account.did.clone(),
                    writes: prepared,
                    swap_commit: expected,
                    signing_key: signing_key.clone(),
                    root: crate::write_flow::copy_root(&root),
                },
            );
            let requests: Vec<WriteRequest> = Vec::new();
            assert(requests.deep_view() =~= Seq::empty());
            DirectTurn {
                next: Some(
                    DirectWritesState {
                        step: DirectStep::AwaitApply,
                        validate,
                        swap_commit,
                        signing_key,
                        ckb_addr,
                        root,
                        auth,
                        requests,
                        account: Some(account),
                        commit,
                        results,
                    },
                ),
                action,
            }
        },
        (DirectStep::AwaitApply, DirectEvent::Applied(ApplyOutcome::Applied(applied))) => {
            let did = match &state.account {
                Some(account) => account.did.clone(),
                None => {
                    return fail(ApiError::RuntimeError);
                },
            };
            let action = DirectAction::Emit(
                Emission::Commit(CommitEvent { did, commit: copy_commit(&applied) }),
            );
            let mut state = state;
            state.step = DirectStep::AwaitCommitEvent;
            state.commit = Some(applied);
            DirectTurn { next: Some(state), action }
        },
        (DirectStep::AwaitApply, DirectEvent::Applied(ApplyOutcome::Refused(e))) => fail(
            from_commit(e),
        ),
        (DirectStep::AwaitApply, DirectEvent::Applied(ApplyOutcome::Failed)) => fail(
            ApiError::Storage,
        ),
        (DirectStep::AwaitCommitEvent, DirectEvent::Sequenced(SequenceOutcome::Sequenced(_))) => {
            let action = match (&state.account, &state.commit) {
                (Some(account), Some(commit)) => DirectAction::UpdateRepoRoot(
                    RootUpdate {
                        did: account.did.clone(),
                        cid: commit.cid.clone(),
                        rev: commit.commit.rev.clone(),
                    },
                ),
                _ => {
                    return fail(ApiError::RuntimeError);
                },
            };
            let mut state = state;
            state.step = DirectStep::AwaitRootUpdate;
            DirectTurn { next: Some(state), action }
        },
        (DirectStep::AwaitCommitEvent, DirectEvent::Sequenced(SequenceOutcome::Failed)) => fail(
            ApiError::Sequencer,
        ),
        (DirectStep::AwaitRootUpdate, DirectEvent::RootUpdated(Outcome::Done)) => {
            let DirectWritesState { commit, results, .. } = state;
            match commit {
                None => fail(ApiError::RuntimeError),
                Some(commit) => DirectTurn {
                    next: None,
                    action: DirectAction::Succeed(
                        DirectWritesOutput {
                            commit: Some(CommitMeta { cid: commit.cid, rev: commit.commit.rev }),
                            results: Some(results),
                        },
                    ),
                },
            }
        },
        (DirectStep::AwaitRootUpdate, DirectEvent::RootUpdated(Outcome::Failed)) => fail(
            ApiError::Storage,
        ),
        _ => fail(ApiError::RuntimeError),
    }
}

/// Whether `action` reaches the object store: assessing the operations and
/// applying the batch do, the rest does not.
pub open spec fn touches_object_store(action: DirectActionView) -> bool {
    action is Assess || action is VerifyWrites
}

/// A batch of more than 200 operations never reaches the object store: from
/// a state that holds such a batch no turn asks anything of it, and where
/// the run goes on, the batch is still the same.
pub proof fn lemma_oversized_batch_stays_out(state: DirectWritesStateView, event: DirectEventView)
    requires
        state.requests.len() > 200,
    ensures
        !touches_object_store(direct_writes_next(state, event).action),
        direct_writes_next(state, event).next matches Some(next) ==> next.requests
            == state.requests,
{
    if state.step == DirectStep::AwaitAssessment && event is Assessed && state.account is Some {
        let assessments = event->Assessed_0;
        let account = state.account->0;
        if paired(state.requests, assessments) is Some {
            let writes = paired(state.requests, assessments)->0;
            assert(writes.len() == state.requests.len());
            crate::writes::lemma_oversized_batch_is_refused(account.did, writes, state.validate);
        }
    }
}

/// A batch of more than 200 operations is refused with an error of the
/// class of invalid records at the station where the batch is measured,
/// provided that the checks before it pass.
pub proof fn lemma_oversized_batch_is_record_invalid(
    state: DirectWritesStateView,
    account: AccountView,
    resolution: ResolutionView,
)
    requires
        state.requests.len() > 200,
        resolution matches ResolutionView::Found(doc) && binding(
            doc,
            account.handle,
            state.signing_key,
        ) is Ok,
        !account.deactivated,
        write_refusal(state.auth, account.did) is None,
    ensures
        direct_refusal(state, account, resolution) == Some(
            ApiError::InvalidRequest(RequestFault::TooManyWrites),
        ),
        ApiError::InvalidRequest(RequestFault::TooManyWrites).class_of()
            == ErrorClass::RecordInvalid,
{
}

/// A direct write is announced by its commit and by nothing else: the only
/// event that a run hands to the log is the commit event of the commit that
/// was applied, and it does so only when the commit generator has applied
/// the batch.
pub proof fn lemma_direct_write_announces_commit_only(
    state: DirectWritesStateView,
    event: DirectEventView,
)
    requires
        direct_writes_next(state, event).action is Emit,
    ensures
        state.step == DirectStep::AwaitApply,
        event matches DirectEventView::Applied(ApplyOutcomeView::Applied(commit))
            && direct_writes_next(state, event).action == DirectActionView::Emit(
            EmissionView::Commit(CommitEventView { did: state.account->0.did, commit: commit }),
        ),
        direct_writes_next(state, event).action->Emit_0.kind() == EventKind::Commit,
{
}

/// The account store learns a new root only after the commit has been
/// announced, and the request succeeds only after the account store has
/// taken the new root.
pub proof fn lemma_root_follows_announcement(state: DirectWritesStateView, event: DirectEventView)
    ensures
        direct_writes_next(state, event).action is UpdateRepoRoot ==> state.step
            == DirectStep::AwaitCommitEvent && event is Sequenced && event->Sequenced_0 is Sequenced,
        direct_writes_next(state, event).action is Succeed ==> state.step
            == DirectStep::AwaitRootUpdate && event == DirectEventView::RootUpdated(Outcome::Done),
        direct_writes_next(state, event).action is VerifyWrites ==> state.step
            == DirectStep::AwaitAssessment,
{
}

/// A commit that has landed but cannot be announced ends the request with
/// a fatal error: the run stops, and the account store is not told the new
/// root.
pub proof fn lemma_unannounced_commit_is_fatal(state: DirectWritesStateView)
    requires
        state.step == DirectStep::AwaitCommitEvent,
    ensures
        direct_writes_next(
            state,
            DirectEventView::Sequenced(SequenceOutcomeView::Failed),
        ) == direct_failed(ApiError::Sequencer),
        ApiError::Sequencer.class_of().is_fatal(),
{
}

} // verus!
