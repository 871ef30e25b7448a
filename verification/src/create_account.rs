//! Creating an account from a first commit that was signed outside the
//! server.
//!
//! The ledger must hold no identity document for the address yet. Then the
//! repository is created from the signed root, the account is created with
//! placeholder credentials, and the creation is announced in four events, in
//! a fixed order, before the account store learns the new root. Where the
//! repository or the account cannot be created, the repository is torn down
//! again before the request fails.
//!
//! The run is a sequence of turns, as for the other requests. From the
//! first event handed to the log until the end of the run the caller holds
//! the log for itself.

use crate::collab::{
    copy_commit, creation_order, AccountEvent, AccountEventView, AccountStatus, CommitEvent,
    CommitEventView, Emission, EmissionView, EventKind, IdentityEvent, IdentityEventView,
    Outcome, Resolution, ResolutionView, RootUpdate, RootUpdateView, SequenceOutcome,
    SequenceOutcomeView, SessionOutcome, SessionOutcomeView, SyncEvent, SyncEventView, Tokens,
    TokensView,
};
use crate::commit::{AppliedCommit, AppliedCommitView};
use crate::entropy::{generate_random_string, is_alphanumeric};
use crate::error::{ApiError, CkbFault};
use crate::write_flow::{copy_optional, copy_root};
use crate::lexicon::{
    CreateAccountInput, CreateAccountInputView, CreateAccountOutput, CreateAccountOutputView,
    SignedRoot, SignedRootView,
};
use vstd::prelude::*;

verus! {

/// The station at which a run waits.
#[derive(Clone, Copy, Debug, PartialEq, Eq, Structural)]
pub enum CreateStep {
    /// The resolver has been asked whether the address has a document.
    AwaitDocument,
    /// The object store has been asked to create the repository.
    AwaitRepo,
    /// The account store has been asked to create the account.
    AwaitAccount,
    /// The object store has been asked to tear the repository down again.
    AwaitRollback,
    /// The log has been handed the identity event.
    AwaitIdentityEvent,
    /// The log has been handed the account event.
    AwaitAccountEvent,
    /// The log has been handed the commit event.
    AwaitCommitEvent,
    /// The log has been handed the sync event.
    AwaitSyncEvent,
    /// The account store has been told the new root.
    AwaitRootUpdate,
}

impl DeepView for CreateStep {
    type V = CreateStep;

    open spec fn deep_view(&self) -> CreateStep {
        *self
    }
}

/// The particulars of an account to be created, once they have been checked.
#[derive(Clone, Debug, PartialEq, Eq)]
pub struct TransformedWeb5CreateAccountInput {
    pub handle: String,
    pub did: String,
    pub password: String,
    pub invite_code: Option<String>,
}

/// What a [`TransformedWeb5CreateAccountInput`] holds, as plain values.
pub struct TransformedWeb5CreateAccountInputView {
    pub handle: Seq<char>,
    pub did: Seq<char>,
    pub password: Seq<char>,
    pub invite_code: Option<Seq<char>>,
}

impl DeepView for TransformedWeb5CreateAccountInput {
    type V = TransformedWeb5CreateAccountInputView;

    open spec fn deep_view(&self) -> TransformedWeb5CreateAccountInputView {
        TransformedWeb5CreateAccountInputView {
            handle: self.handle.deep_view(),
            did: self.did.deep_view(),
            password: self.password.deep_view(),
            invite_code: self.invite_code.deep_view(),
        }
    }
}

impl View for TransformedWeb5CreateAccountInput {
    type V = TransformedWeb5CreateAccountInputView;

    open spec fn view(&self) -> TransformedWeb5CreateAccountInputView {
        self.deep_view()
    }
}

/// The random parts of the placeholder credentials.
#[derive(Clone, Debug, PartialEq, Eq)]
pub struct Secrets {
    /// What stands between `web5Mock` and `@web5.com` in the placeholder address.
    pub email_tag: String,
    pub password: String,
}

/// What a [`Secrets`] holds, as plain values.
pub struct SecretsView {
    pub email_tag: Seq<char>,
    pub password: Seq<char>,
}

impl DeepView for Secrets {
    type V = SecretsView;

    open spec fn deep_view(&self) -> SecretsView {
        SecretsView {
            email_tag: self.email_tag.deep_view(),
            password: self.password.deep_view(),
        }
    }
}

impl View for Secrets {
    type V = SecretsView;

    open spec fn view(&self) -> SecretsView {
        self.deep_view()
    }
}

/// Asks the object store to create a repository from a signed first commit.
#[derive(Clone, Debug, PartialEq, Eq)]
pub struct RepoCreation {
    pub did: String,
    pub root: SignedRoot,
    pub signing_key: String,
}

/// What a [`RepoCreation`] holds, as plain values.
pub struct RepoCreationView {
    pub did: Seq<char>,
    pub root: SignedRootView,
    pub signing_key: Seq<char>,
}

impl DeepView for RepoCreation {
    type V = RepoCreationView;

    open spec fn deep_view(&self) -> RepoCreationView {
        RepoCreationView {
            did: self.did.deep_view(),
            root: self.root.deep_view(),
            signing_key: self.signing_key.deep_view(),
        }
    }
}

impl View for RepoCreation {
    type V = RepoCreationView;

    open spec fn view(&self) -> RepoCreationView {
        self.deep_view()
    }
}

/// What the object store gave when asked to create a repository.
#[derive(Clone, Debug, PartialEq, Eq)]
pub enum RepoOutcome {
    Created(AppliedCommit),
    Failed,
}

/// What a [`RepoOutcome`] holds, as plain values.
pub enum RepoOutcomeView {
    Created(AppliedCommitView),
    Failed,
}

impl DeepView for RepoOutcome {
    type V = RepoOutcomeView;

    open spec fn deep_view(&self) -> RepoOutcomeView {
        match self {
            RepoOutcome::Created(inner) => RepoOutcomeView::Created(inner.deep_view()),
            RepoOutcome::Failed => RepoOutcomeView::Failed,
        }
    }
}

impl View for RepoOutcome {
    type V = RepoOutcomeView;

    open spec fn view(&self) -> RepoOutcomeView {
        self.deep_view()
    }
}

/// Asks the account store to create an account.
#[derive(Clone, Debug, PartialEq, Eq)]
pub struct CreateAccountOpts {
    pub did: String,
    pub handle: String,
    pub email: Option<String>,
    pub password: Option<String>,
    pub repo_cid: String,
    pub repo_rev: String,
    pub invite_code: Option<String>,
    pub deactivated: Option<bool>,
    pub ckb_addr: Option<String>,
}

/// What a [`CreateAccountOpts`] holds, as plain values.
pub struct CreateAccountOptsView {
    pub did: Seq<char>,
    pub handle: Seq<char>,
    pub email: Option<Seq<char>>,
    pub password: Option<Seq<char>>,
    pub repo_cid: Seq<char>,
    pub repo_rev: Seq<char>,
    pub invite_code: Option<Seq<char>>,
    pub deactivated: Option<bool>,
    pub ckb_addr: Option<Seq<char>>,
}

impl DeepView for CreateAccountOpts {
    type V = CreateAccountOptsView;

    open spec fn deep_view(&self) -> CreateAccountOptsView {
        CreateAccountOptsView {
            did: self.did.deep_view(),
            handle: self.handle.deep_view(),
            email: self.email.deep_view(),
            password: self.password.deep_view(),
            repo_cid: self.repo_cid.deep_view(),
            repo_rev: self.repo_rev.deep_view(),
            invite_code: self.invite_code.deep_view(),
            deactivated: self.deactivated.deep_view(),
            ckb_addr: self.ckb_addr.deep_view(),
        }
    }
}

impl View for CreateAccountOpts {
    type V = CreateAccountOptsView;

    open spec fn view(&self) -> CreateAccountOptsView {
        self.deep_view()
    }
}

/// What a run has established so far.
#[derive(Clone, Debug, PartialEq, Eq)]
pub struct CreateAccountState {
    pub step: CreateStep,
    pub did: String,
    pub handle: String,
    pub ckb_addr: String,
    pub invite_code: Option<String>,
    pub signing_key: String,
    pub root: SignedRoot,
    /// The first commit, once the repository has been created.
    pub commit: Option<AppliedCommit>,
    /// The session, once the account has been created.
    pub tokens: Option<Tokens>,
}

/// What a [`CreateAccountState`] holds, as plain values.
pub struct CreateAccountStateView {
    pub step: CreateStep,
    pub did: Seq<char>,
    pub handle: Seq<char>,
    pub ckb_addr: Seq<char>,
    pub invite_code: Option<Seq<char>>,
    pub signing_key: Seq<char>,
    pub root: SignedRootView,
    pub commit: Option<AppliedCommitView>,
    pub tokens: Option<TokensView>,
}

impl DeepView for CreateAccountState {
    type V = CreateAccountStateView;

    open spec fn deep_view(&self) -> CreateAccountStateView {
        CreateAccountStateView {
            step: self.step.deep_view(),
            did: self.did.deep_view(),
            handle: self.handle.deep_view(),
            ckb_addr: self.ckb_addr.deep_view(),
            invite_code: self.invite_code.deep_view(),
            signing_key: self.signing_key.deep_view(),
            root: self.root.deep_view(),
            commit: self.commit.deep_view(),
            tokens: self.tokens.deep_view(),
        }
    }
}

impl View for CreateAccountState {
    type V = CreateAccountStateView;

    open spec fn view(&self) -> CreateAccountStateView {
        self.deep_view()
    }
}

/// What a collaborator handed back.
#[derive(Clone, Debug, PartialEq, Eq)]
pub enum CreateEvent {
    Document(Resolution),
    RepoCreated(RepoOutcome),
    AccountCreated(SessionOutcome),
    Destroyed(Outcome),
    Sequenced(SequenceOutcome),
    RootUpdated(Outcome),
}

/// What a [`CreateEvent`] holds, as plain values.
pub enum CreateEventView {
    Document(ResolutionView),
    RepoCreated(RepoOutcomeView),
    AccountCreated(SessionOutcomeView),
    Destroyed(Outcome),
    Sequenced(SequenceOutcomeView),
    RootUpdated(Outcome),
}

impl DeepView for CreateEvent {
    type V = CreateEventView;

    open spec fn deep_view(&self) -> CreateEventView {
        match self {
            CreateEvent::Document(inner) => CreateEventView::Document(inner.deep_view()),
            CreateEvent::RepoCreated(inner) => CreateEventView::RepoCreated(inner.deep_view()),
            CreateEvent::AccountCreated(inner) => CreateEventView::AccountCreated(inner.deep_view()),
            CreateEvent::Destroyed(inner) => CreateEventView::Destroyed(inner.deep_view()),
            CreateEvent::Sequenced(inner) => CreateEventView::Sequenced(inner.deep_view()),
            CreateEvent::RootUpdated(inner) => CreateEventView::RootUpdated(inner.deep_view()),
        }
    }
}

impl View for CreateEvent {
    type V = CreateEventView;

    open spec fn view(&self) -> CreateEventView {
        self.deep_view()
    }
}

/// What to do next.
#[derive(Clone, Debug, PartialEq, Eq)]
pub enum CreateAction {
    /// Ask the resolver for the identity document of the ledger address.
    Resolve(String),
    /// Ask the object store to create the repository.
    CreateRepo(RepoCreation),
    /// Ask the account store to create the account.
    CreateAccount(CreateAccountOpts),
    /// Ask the object store to tear the repository of the identity down.
    DestroyStore(String),
    /// Hand the event to the log.
    Emit(Emission),
    /// Tell the account store the new root.
    UpdateRepoRoot(RootUpdate),
    /// The run has ended; answer the request with this.
    Succeed(CreateAccountOutput),
    /// The run has ended; answer the request with this error.
    Fail(ApiError),
}

/// What a [`CreateAction`] holds, as plain values.
pub enum CreateActionView {
    Resolve(Seq<char>),
    CreateRepo(RepoCreationView),
    CreateAccount(CreateAccountOptsView),
    DestroyStore(Seq<char>),
    Emit(EmissionView),
    UpdateRepoRoot(RootUpdateView),
    Succeed(CreateAccountOutputView),
    Fail(ApiError),
}

impl DeepView for CreateAction {
    type V = CreateActionView;

    open spec fn deep_view(&self) -> CreateActionView {
        match self {
            CreateAction::Resolve(inner) => CreateActionView::Resolve(inner.deep_view()),
            CreateAction::CreateRepo(inner) => CreateActionView::CreateRepo(inner.deep_view()),
            CreateAction::CreateAccount(inner) => CreateActionView::CreateAccount(inner.deep_view()),
            CreateAction::DestroyStore(inner) => CreateActionView::DestroyStore(inner.deep_view()),
            CreateAction::Emit(inner) => CreateActionView::Emit(inner.deep_view()),
            CreateAction::UpdateRepoRoot(inner) => CreateActionView::UpdateRepoRoot(inner.deep_view()),
            CreateAction::Succeed(inner) => CreateActionView::Succeed(inner.deep_view()),
            CreateAction::Fail(inner) => CreateActionView::Fail(inner.deep_view()),
        }
    }
}

impl View for CreateAction {
    type V = CreateActionView;

    open spec fn view(&self) -> CreateActionView {
        self.deep_view()
    }
}

/// One turn of a run: what to do next, and the state to come back with. A
/// run that has ended has no state to come back with.
#[derive(Clone, Debug, PartialEq, Eq)]
pub struct CreateTurn {
    pub next: Option<CreateAccountState>,
    pub action: CreateAction,
}

/// What a [`CreateTurn`] holds, as plain values.
pub struct CreateTurnView {
    pub next: Option<CreateAccountStateView>,
    pub action: CreateActionView,
}

impl DeepView for CreateTurn {
    type V = CreateTurnView;

    open spec fn deep_view(&self) -> CreateTurnView {
        CreateTurnView {
            next: self.next.deep_view(),
            action: self.action.deep_view(),
        }
    }
}

impl View for CreateTurn {
    type V = CreateTurnView;

    open spec fn view(&self) -> CreateTurnView {
        self.deep_view()
    }
}

/// The placeholder address of an account, for a given random part.
pub open spec fn mock_email(tag: Seq<char>) -> Seq<char> {
    "web5Mock"@ + tag + "@web5.com"@
}

/// The turn that ends a run with an error.
pub open spec fn create_failed(e: ApiError) -> CreateTurnView {
    CreateTurnView { next: None, action: CreateActionView::Fail(e) }
}

/// The turn that goes on in `state` at the station `step` with `action`.
pub open spec fn create_goes_on(
    state: CreateAccountStateView,
    step: CreateStep,
    action: CreateActionView,
) -> CreateTurnView {
    CreateTurnView { next: Some(CreateAccountStateView { step: step, ..state }), action: action }
}

/// The first turn of a run: the resolver is asked whether the ledger
/// address has an identity document already.
pub open spec fn create_account_first(input: CreateAccountInputView) -> CreateTurnView {
    CreateTurnView {
        next: Some(
            CreateAccountStateView {
                step: CreateStep::AwaitDocument,
                did: input.root.did,
                handle: input.handle,
                ckb_addr: input.ckb_addr,
                invite_code: input.invite_code,
                signing_key: input.signing_key,
                root: input.root,
                commit: None,
                tokens: None,
            },
        ),
        action: CreateActionView::Resolve(input.ckb_addr),
    }
}

/// The request to the account store for the account of a run whose
/// repository has been created under `commit`.
pub open spec fn account_opts(
    state: CreateAccountStateView,
    commit: AppliedCommitView,
    secrets: SecretsView,
) -> CreateAccountOptsView {
    CreateAccountOptsView {
        did: state.did,
        handle: state.handle,
        email: Some(mock_email(secrets.email_tag)),
        password: Some(secrets.password),
        repo_cid: commit.cid,
        repo_rev: commit.commit.rev,
        invite_code: state.invite_code,
        deactivated: Some(false),
        ckb_addr: Some(state.ckb_addr),
    }
}

/// The turn that follows the answer `event` in the state `state`, with
/// `secrets` at hand for the placeholder credentials.
pub open spec fn create_account_next(
    state: CreateAccountStateView,
    event: CreateEventView,
    secrets: SecretsView,
) -> CreateTurnView {
    match (state.step, event) {
        (CreateStep::AwaitDocument, CreateEventView::Document(ResolutionView::Found(_))) => {
            create_failed(ApiError::InvalidCkbError(CkbFault::AlreadyApplied))
        },
        (CreateStep::AwaitDocument, CreateEventView::Document(ResolutionView::Failed(e))) => {
            if e == ApiError::CkbDidocCellNotFound {
                create_goes_on(
                    state,
                    CreateStep::AwaitRepo,
                    CreateActionView::CreateRepo(
                        RepoCreationView {
                            did: state.did,
                            root: state.root,
                            signing_key: state.signing_key,
                        },
                    ),
                )
            } else {
                create_failed(e)
            }
        },
        (CreateStep::AwaitRepo, CreateEventView::RepoCreated(RepoOutcomeView::Created(commit))) => {
            CreateTurnView {
                next: Some(
                    CreateAccountStateView {
                        step: CreateStep::AwaitAccount,
                        commit: Some(commit),
                        ..state
                    },
                ),
                action: CreateActionView::CreateAccount(account_opts(state, commit, secrets)),
            }
        },
        (CreateStep::AwaitRepo, CreateEventView::RepoCreated(RepoOutcomeView::Failed)) => {
            create_goes_on(
                state,
                CreateStep::AwaitRollback,
                CreateActionView::DestroyStore(state.did),
            )
        },
        (
            CreateStep::AwaitAccount,
            CreateEventView::AccountCreated(SessionOutcomeView::Opened(tokens)),
        ) => CreateTurnView {
            next: Some(
                CreateAccountStateView {
                    step: CreateStep::AwaitIdentityEvent,
                    tokens: Some(tokens),
                    ..state
                },
            ),
            action: CreateActionView::Emit(
                EmissionView::Identity(
                    IdentityEventView { did: state.did, handle: Some(state.handle) },
                ),
            ),
        },
        (CreateStep::AwaitAccount, CreateEventView::AccountCreated(SessionOutcomeView::Failed)) => {
            create_goes_on(
                state,
                CreateStep::AwaitRollback,
                CreateActionView::DestroyStore(state.did),
            )
        },
        (CreateStep::AwaitRollback, CreateEventView::Destroyed(Outcome::Done)) => create_failed(
            ApiError::RuntimeError,
        ),
        (CreateStep::AwaitRollback, CreateEventView::Destroyed(Outcome::Failed)) => create_failed(
            ApiError::Storage,
        ),
        (
            CreateStep::AwaitIdentityEvent,
            CreateEventView::Sequenced(SequenceOutcomeView::Sequenced(_)),
        ) => create_goes_on(
            state,
            CreateStep::AwaitAccountEvent,
            CreateActionView::Emit(
                EmissionView::Account(
                    AccountEventView { did: state.did, status: AccountStatus::Active },
                ),
            ),
        ),
        (
            CreateStep::AwaitAccountEvent,
            CreateEventView::Sequenced(SequenceOutcomeView::Sequenced(_)),
        ) => match state.commit {
            None => create_failed(ApiError::RuntimeError),
            Some(commit) => create_goes_on(
                state,
                CreateStep::AwaitCommitEvent,
                CreateActionView::Emit(
                    EmissionView::Commit(CommitEventView { did: state.did, commit: commit }),
                ),
            ),
        },
        (
            CreateStep::AwaitCommitEvent,
            CreateEventView::Sequenced(SequenceOutcomeView::Sequenced(_)),
        ) => match state.commit {
            None => create_failed(ApiError::RuntimeError),
            Some(commit) => create_goes_on(
                state,
                CreateStep::AwaitSyncEvent,
                CreateActionView::Emit(
                    EmissionView::Sync(SyncEventView { did: state.did, commit: commit }),
                ),
            ),
        },
        (
            CreateStep::AwaitSyncEvent,
            CreateEventView::Sequenced(SequenceOutcomeView::Sequenced(_)),
        ) => match state.commit {
            None => create_failed(ApiError::RuntimeError),
            Some(commit) => create_goes_on(
                state,
                CreateStep::AwaitRootUpdate,
                CreateActionView::UpdateRepoRoot(
                    RootUpdateView { did: state.did, cid: commit.cid, rev: commit.commit.rev },
                ),
            ),
        },
        (CreateStep::AwaitIdentityEvent, CreateEventView::Sequenced(SequenceOutcomeView::Failed)) => {
            create_failed(ApiError::Sequencer)
        },
        (CreateStep::AwaitAccountEvent, CreateEventView::Sequenced(SequenceOutcomeView::Failed)) => {
            create_failed(ApiError::Sequencer)
        },
        (CreateStep::AwaitCommitEvent, CreateEventView::Sequenced(SequenceOutcomeView::Failed)) => {
            create_failed(ApiError::Sequencer)
        },
        (CreateStep::AwaitSyncEvent, CreateEventView::Sequenced(SequenceOutcomeView::Failed)) => {
            create_failed(ApiError::Sequencer)
        },
        (CreateStep::AwaitRootUpdate, CreateEventView::RootUpdated(Outcome::Done)) => {
            match state.tokens {
                None => create_failed(ApiError::RuntimeError),
                Some(tokens) => CreateTurnView {
                    next: None,
                    action: CreateActionView::Succeed(
                        CreateAccountOutputView {
                            handle: state.handle,
                            did: state.did,
                            did_doc: None,
                            access_jwt: tokens.access_jwt,
                            refresh_jwt: tokens.refresh_jwt,
                        },
                    ),
                },
            }
        },
        (CreateStep::AwaitRootUpdate, CreateEventView::RootUpdated(Outcome::Failed)) => {
            create_failed(ApiError::Storage)
        },
        _ => create_failed(ApiError::RuntimeError),
    }
}

/// The turn that ends a run with an error.
fn fail(e: ApiError) -> (out: CreateTurn)
    ensures
        out@ == create_failed(e),
{
    CreateTurn { next: None, action: CreateAction::Fail(e) }
}

/// The turn that goes on in `state` at the station `step` with `action`.
fn go_on(state: CreateAccountState, step: CreateStep, action: CreateAction) -> (out: CreateTurn)
    ensures
        out@ == create_goes_on(state@, step, action@),
{
    let mut state = state;
    state.step = step;
    CreateTurn { next: Some(state), action }
}

/// The placeholder address of an account, for a given random part.
pub fn make_mock_email(tag: &str) -> (out: String)
    ensures
        out@ == mock_email(tag@),
{
    let mut out = String::from_str("web5Mock");
    out.append(tag);
    out.append("@web5.com");
    out
}

/// The first turn of a run.
pub fn create_account_start(input: CreateAccountInput) -> (out: CreateTurn)
    ensures
        out@ == create_account_first(input@),
{
    let CreateAccountInput { handle, signing_key, password: _, root, ckb_addr, invite_code } = input;
    let action = CreateAction::Resolve(ckb_addr.clone());
    CreateTurn {
        next: Some(
            CreateAccountState {
                step: CreateStep::AwaitDocument,
                did: root.did.clone(),
                handle,
                ckb_addr,
                invite_code,
                signing_key,
                root,
                commit: None,
                tokens: None,
            },
        ),
        action,
    }
}

/// The turn that follows the answer `event` in the state `state`, with
/// `secrets` at hand for the placeholder credentials.
pub fn create_account_step_with(state: CreateAccountState, event: CreateEvent, secrets: Secrets) -> (out:
    CreateTurn)
    ensures
        out@ == create_account_next(state@, event@, secrets@),
{
    match (state.step, event) {
        (CreateStep::AwaitDocument, CreateEvent::Document(Resolution::Found(_))) => fail(
            ApiError::InvalidCkbError(CkbFault::AlreadyApplied),
        ),
        (CreateStep::AwaitDocument, CreateEvent::Document(Resolution::Failed(e))) => match e {
            ApiError::CkbDidocCellNotFound => {
                let action = CreateAction::CreateRepo(
                    RepoCreation {
                        did: state.did.clone(),
                        root: copy_root(&state.root),
                        signing_key: state.signing_key.clone(),
                    },
                );
                go_on(state, CreateStep::AwaitRepo, action)
            },
            _ => fail(e),
        },
        (CreateStep::AwaitRepo, CreateEvent::RepoCreated(RepoOutcome::Created(commit))) => {
            let Secrets { email_tag, password } = secrets;
            let action = CreateAction::CreateAccount(
                CreateAccountOpts {
                    did: state.did.clone(),
                    handle: state.handle.clone(),
                    email: Some(make_mock_email(email_tag.as_str())),
                    password: Some(password),
                    repo_cid: commit.cid.clone(),
                    repo_rev: commit.commit.rev.clone(),
                    invite_code: copy_optional(&state.invite_code),
                    deactivated: Some(false),
                    ckb_addr: Some(state.ckb_addr.clone()),
                },
            );
            let mut state = state;
            state.step = CreateStep::AwaitAccount;
            state.commit = Some(commit);
            CreateTurn { next: Some(state), action }
        },
        (CreateStep::AwaitRepo, CreateEvent::RepoCreated(RepoOutcome::Failed)) => {
            let action = CreateAction::DestroyStore(state.did.clone());
            go_on(state, CreateStep::AwaitRollback, action)
        },
        (CreateStep::AwaitAccount, CreateEvent::AccountCreated(SessionOutcome::Opened(tokens))) => {
            let action = CreateAction::Emit(
                Emission::Identity(
                    IdentityEvent { did: state.did.clone(), handle: Some(state.handle.clone()) },
                ),
            );
            let mut state = state;
            state.step = CreateStep::AwaitIdentityEvent;
            state.tokens = Some(tokens);
            CreateTurn { next: Some(state), action }
        },
        (CreateStep::AwaitAccount, CreateEvent::AccountCreated(SessionOutcome::Failed)) => {
            let action = CreateAction::DestroyStore(state.did.clone());
            go_on(state, CreateStep::AwaitRollback, action)
        },
        (CreateStep::AwaitRollback, CreateEvent::Destroyed(Outcome::Done)) => fail(
            ApiError::RuntimeError,
        ),
        (CreateStep::AwaitRollback, CreateEvent::Destroyed(Outcome::Failed)) => fail(
            ApiError::Storage,
        ),
        (CreateStep::AwaitIdentityEvent, CreateEvent::Sequenced(SequenceOutcome::Sequenced(_))) => {
            let action = CreateAction::Emit(
                Emission::Account(
                    AccountEvent { did: state.did.clone(), status: AccountStatus::Active },
                ),
            );
            go_on(state, CreateStep::AwaitAccountEvent, action)
        },
        (CreateStep::AwaitAccountEvent, CreateEvent::Sequenced(SequenceOutcome::Sequenced(_))) => {
            match &state.commit {
                None => fail(ApiError::RuntimeError),
                Some(commit) => {
                    let action = CreateAction::Emit(
                        Emission::Commit(
                            CommitEvent { did: state.did.clone(), commit: copy_commit(commit) },
                        ),
                    );
                    go_on(state, CreateStep::AwaitCommitEvent, action)
                },
            }
        },
        (CreateStep::AwaitCommitEvent, CreateEvent::Sequenced(SequenceOutcome::Sequenced(_))) => {
            match &state.commit {
                None => fail(ApiError::RuntimeError),
                Some(commit) => {
                    let action = CreateAction::Emit(
                        Emission::Sync(
                            SyncEvent { did: state.did.clone(), commit: copy_commit(commit) },
                        ),
                    );
                    go_on(state, CreateStep::AwaitSyncEvent, action)
                },
            }
        },
        (CreateStep::AwaitSyncEvent, CreateEvent::Sequenced(SequenceOutcome::Sequenced(_))) => {
            match &state.commit {
                None => fail(ApiError::RuntimeError),
                Some(commit) => {
                    let action = CreateAction::UpdateRepoRoot(
                        RootUpdate {
                            did: state.did.clone(),
                            cid: commit.cid.clone(),
                            rev: commit.commit.rev.clone(),
                        },
                    );
                    go_on(state, CreateStep::AwaitRootUpdate, action)
                },
            }
        },
        (CreateStep::AwaitIdentityEvent, CreateEvent::Sequenced(SequenceOutcome::Failed)) => fail(
            ApiError::Sequencer,
        ),
        (CreateStep::AwaitAccountEvent, CreateEvent::Sequenced(SequenceOutcome::Failed)) => fail(
            ApiError::Sequencer,
        ),
        (CreateStep::AwaitCommitEvent, CreateEvent::Sequenced(SequenceOutcome::Failed)) => fail(
            ApiError::Sequencer,
        ),
        (CreateStep::AwaitSyncEvent, CreateEvent::Sequenced(SequenceOutcome::Failed)) => fail(
            ApiError::Sequencer,
        ),
        (CreateStep::AwaitRootUpdate, CreateEvent::RootUpdated(Outcome::Done)) => {
            let CreateAccountState { handle, did, tokens, .. } = state;
            match tokens {
                None => fail(ApiError::RuntimeError),
                Some(tokens) => CreateTurn {
                    next: None,
                    action: CreateAction::Succeed(
                        CreateAccountOutput {
                            handle,
                            did,
                            did_doc: None,
                            access_jwt: tokens.access_jwt,
                            refresh_jwt: tokens.refresh_jwt,
                        },
                    ),
                },
            }
        },
        (CreateStep::AwaitRootUpdate, CreateEvent::RootUpdated(Outcome::Failed)) => fail(
            ApiError::Storage,
        ),
        _ => fail(ApiError::RuntimeError),
    }
}

/// The turn that follows the answer `event` in the state `state`, with
/// placeholder credentials drawn at random: ten letters and digits for the
/// address, sixteen for the password.
pub fn create_account_step(state: CreateAccountState, event: CreateEvent) -> (out: CreateTurn)
    ensures
        exists|secrets: SecretsView|
            {
                &&& out@ == #[trigger] create_account_next(state@, event@, secrets)
                &&& secrets.email_tag.len() == 10
                &&& secrets.password.len() == 16
                &&& forall|i: int|
                    0 <= i < 10 ==> is_alphanumeric(#[trigger] secrets.email_tag[i])
                &&& forall|i: int|
                    0 <= i < 16 ==> is_alphanumeric(#[trigger] secrets.password[i])
            },
{
    let secrets = Secrets {
        email_tag: generate_random_string(10),
        password: generate_random_string(16),
    };
    let ghost drawn = secrets@;
    let out = create_account_step_with(state, event, secrets);
    assert(out@ == create_account_next(state@, event@, drawn));
    out
}

/// The actions of a run that starts with `turn` and is handed `inputs` one
/// after the other, for as long as the run goes on.
pub open spec fn create_run(turn: CreateTurnView, inputs: Seq<(CreateEventView, SecretsView)>) -> Seq<
    CreateActionView,
>
    decreases inputs.len(),
{
    match turn.next {
        None => seq![turn.action],
        Some(state) => if inputs.len() == 0 {
            seq![turn.action]
        } else {
            seq![turn.action] + create_run(
                create_account_next(state, inputs[0].0, inputs[0].1),
                inputs.skip(1),
            )
        },
    }
}

/// The kinds of the events that `actions` hand to the log, in order.
pub open spec fn announced(actions: Seq<CreateActionView>) -> Seq<EventKind>
    decreases actions.len(),
{
    if actions.len() == 0 {
        Seq::empty()
    } else {
        match actions[0] {
            CreateActionView::Emit(e) => seq![e.kind()] + announced(actions.skip(1)),
            _ => announced(actions.skip(1)),
        }
    }
}

/// How many of the four events have been handed to the log once a run
/// stands at `step` with its action issued.
pub open spec fn announced_by(step: CreateStep) -> int {
    match step {
        CreateStep::AwaitDocument => 0,
        CreateStep::AwaitRepo => 0,
        CreateStep::AwaitAccount => 0,
        CreateStep::AwaitRollback => 0,
        CreateStep::AwaitIdentityEvent => 1,
        CreateStep::AwaitAccountEvent => 2,
        CreateStep::AwaitCommitEvent => 3,
        CreateStep::AwaitSyncEvent => 4,
        CreateStep::AwaitRootUpdate => 4,
    }
}

/// The action of a turn is the one that belongs to its station: at the four
/// stations that wait for the log, the event of that station; elsewhere no
/// event; and only a run that has ended succeeds or fails.
pub open spec fn turn_in_order(turn: CreateTurnView) -> bool {
    match turn.next {
        None => !(turn.action is Emit),
        Some(state) => match state.step {
            CreateStep::AwaitIdentityEvent => turn.action matches CreateActionView::Emit(e)
                && e.kind() == EventKind::Identity,
            CreateStep::AwaitAccountEvent => turn.action matches CreateActionView::Emit(e)
                && e.kind() == EventKind::AccountStatus,
            CreateStep::AwaitCommitEvent => turn.action matches CreateActionView::Emit(e)
                && e.kind() == EventKind::Commit,
            CreateStep::AwaitSyncEvent => turn.action matches CreateActionView::Emit(e)
                && e.kind() == EventKind::Sync,
            _ => !(turn.action is Emit) && !(turn.action is Succeed),
        },
    }
}

/// The events that a run from `turn` on can still hand to the log, the one
/// of `turn` itself included: the rest of the fixed order.
pub open spec fn still_to_announce(turn: CreateTurnView) -> Seq<EventKind> {
    match turn.next {
        None => Seq::empty(),
        Some(state) => if turn.action is Emit {
            creation_order().skip(announced_by(state.step) - 1)
        } else {
            creation_order().skip(announced_by(state.step))
        },
    }
}

/// Every turn that follows an answer is in order.
pub proof fn lemma_next_turn_in_order(
    state: CreateAccountStateView,
    event: CreateEventView,
    secrets: SecretsView,
)
    ensures
        turn_in_order(create_account_next(state, event, secrets)),
{
}

/// From a turn that is in order, a run hands to the log an initial part of
/// what is still to be announced, whatever answers it gets.
pub proof fn lemma_run_announces_in_order(
    turn: CreateTurnView,
    inputs: Seq<(CreateEventView, SecretsView)>,
)
    requires
        turn_in_order(turn),
    ensures
        announced(create_run(turn, inputs)).is_prefix_of(still_to_announce(turn)),
    decreases inputs.len(),
{
    let run = create_run(turn, inputs);
    let order = creation_order();
    assert(order.len() == 4);
    match turn.next {
        None => {
            assert(run.skip(1) =~= Seq::empty());
            assert(announced(run.skip(1)) =~= Seq::empty());
            assert(announced(run) =~= Seq::empty());
        },
        Some(state) => {
            if inputs.len() == 0 {
                assert(run.skip(1) =~= Seq::empty());
                assert(announced(run.skip(1)) =~= Seq::empty());
                if turn.action is Emit {
                    assert(announced(run) =~= seq![turn.action->Emit_0.kind()]);
                    assert(still_to_announce(turn)[0] == turn.action->Emit_0.kind());
                } else {
                    assert(announced(run) =~= Seq::empty());
                }
            } else {
                let following = create_account_next(state, inputs[0].0, inputs[0].1);
                let rest = create_run(following, inputs.skip(1));
                lemma_next_turn_in_order(state, inputs[0].0, inputs[0].1);
                lemma_run_announces_in_order(following, inputs.skip(1));
                assert(run.skip(1) =~= rest);
                let later = announced(rest);
                assert(later.is_prefix_of(still_to_announce(following)));
                if turn.action is Emit {
                    let kind = turn.action->Emit_0.kind();
                    assert(announced(run) =~= seq![kind] + later);
                    assert(still_to_announce(turn)[0] == kind);
                    assert(still_to_announce(following).is_prefix_of(still_to_announce(turn).skip(1)))
                        by {
                        assert(still_to_announce(following) =~= still_to_announce(turn).skip(1)
                            || still_to_announce(following) =~= Seq::<EventKind>::empty());
                    }
                    assert forall|i: int| 0 <= i < announced(run).len() implies announced(run)[i]
                        == still_to_announce(turn)[i] by {
                        if i > 0 {
                            assert(announced(run)[i] == later[i - 1]);
                            assert(later[i - 1] == still_to_announce(following)[i - 1]);
                        }
                    }
                } else {
                    assert(announced(run) =~= later);
                    assert(still_to_announce(following).is_prefix_of(still_to_announce(turn))) by {
                        assert(still_to_announce(following) =~= still_to_announce(turn)
                            || still_to_announce(following) =~= Seq::<EventKind>::empty());
                    }
                }
            }
        },
    }
}

/// The creation of an account is announced in the fixed order: whatever the
/// collaborators answer, the events that a run hands to the log are an
/// initial part of identity, account status, commit, sync.
pub proof fn lemma_creation_is_announced_in_order(
    input: CreateAccountInputView,
    inputs: Seq<(CreateEventView, SecretsView)>,
)
    ensures
        announced(create_run(create_account_first(input), inputs)).is_prefix_of(creation_order()),
{
    let first = create_account_first(input);
    lemma_run_announces_in_order(first, inputs);
    assert(still_to_announce(first) =~= creation_order());
}

/// A run succeeds from one station only: the last, where the account store
/// has taken the new root.
pub proof fn lemma_success_comes_last(
    state: CreateAccountStateView,
    event: CreateEventView,
    secrets: SecretsView,
)
    ensures
        create_account_next(state, event, secrets).action is Succeed ==> state.step
            == CreateStep::AwaitRootUpdate,
        create_account_next(state, event, secrets).action is UpdateRepoRoot ==> state.step
            == CreateStep::AwaitSyncEvent,
{
}

/// From a turn that is in order, a run that ends in success has handed to
/// the log all that was still to be announced.
pub proof fn lemma_successful_run_announces_all(
    turn: CreateTurnView,
    inputs: Seq<(CreateEventView, SecretsView)>,
)
    requires
        turn_in_order(turn),
        create_run(turn, inputs).last() is Succeed,
    ensures
        announced(create_run(turn, inputs)) == still_to_announce(turn),
    decreases inputs.len(),
{
    let run = create_run(turn, inputs);
    assert(creation_order().len() == 4);
    match turn.next {
        None => {
            assert(run.skip(1) =~= Seq::empty());
            assert(announced(run.skip(1)) =~= Seq::empty());
            assert(announced(run) =~= Seq::empty());
        },
        Some(state) => {
            if inputs.len() == 0 {
                assert(run.last() == turn.action);
            } else {
                let following = create_account_next(state, inputs[0].0, inputs[0].1);
                let rest = create_run(following, inputs.skip(1));
                lemma_next_turn_in_order(state, inputs[0].0, inputs[0].1);
                lemma_success_comes_last(state, inputs[0].0, inputs[0].1);
                assert(run.skip(1) =~= rest);
                assert(rest.len() > 0);
                assert(run.last() == rest.last());
                lemma_successful_run_announces_all(following, inputs.skip(1));
                if following.next is None {
                    assert(rest =~= seq![following.action]);
                    assert(state.step == CreateStep::AwaitRootUpdate);
                    assert(still_to_announce(turn) =~= Seq::<EventKind>::empty());
                    assert(announced(run) =~= announced(rest));
                } else {
                    if turn.action is Emit {
                        let kind = turn.action->Emit_0.kind();
                        assert(announced(run) =~= seq![kind] + announced(rest));
                        assert(still_to_announce(turn) =~= seq![kind] + still_to_announce(following));
                    } else {
                        assert(announced(run) =~= announced(rest));
                        assert(still_to_announce(turn) =~= still_to_announce(following));
                    }
                }
            }
        },
    }
}

/// A creation that succeeds has been announced in full: identity, account
/// status, commit and sync have been handed to the log, in that order and
/// each once.
pub proof fn lemma_created_account_is_announced_in_full(
    input: CreateAccountInputView,
    inputs: Seq<(CreateEventView, SecretsView)>,
)
    requires
        create_run(create_account_first(input), inputs).last() is Succeed,
    ensures
        announced(create_run(create_account_first(input), inputs)) == creation_order(),
{
    let first = create_account_first(input);
    lemma_successful_run_announces_all(first, inputs);
    assert(still_to_announce(first) =~= creation_order());
}

} // verus!
