//! Preparing the first commit of a new account for signing.
//!
//! The particulars of the account are checked first: an invite code where
//! the server asks for one, a handle that is valid, belongs to the server's
//! domain and is not taken. Then the object store says what the first commit
//! would be. Where it cannot, whatever it has laid down is torn down again.
//! A request that fails the checks is answered with an error that does not
//! say which check failed.

use crate::collab::{AccountLookup, AccountLookupView, AccountQuery, AccountQueryView, Outcome};
use crate::error::ApiError;
use crate::lexicon::{
    PreCreateAccountInput, PreCreateAccountInputView, PreCreateAccountOutput,
    PreCreateAccountOutputView,
};
use crate::model::ok_view;
use crate::text::{chars_of, has_suffix, is_suffix};
use vstd::prelude::*;

verus! {

/// The station at which a run waits.
#[derive(Clone, Copy, Debug, PartialEq, Eq, Structural)]
pub enum PreCreateStep {
    /// The handle has been given out to be normalised and validated.
    AwaitHandle,
    /// The account store has been asked whether the handle is taken.
    AwaitAccount,
    /// The object store has been asked for the unsigned first commit.
    AwaitRepo,
    /// The object store has been asked to tear the repository down again.
    AwaitRollback,
}

impl DeepView for PreCreateStep {
    type V = PreCreateStep;

    open spec fn deep_view(&self) -> PreCreateStep {
        *self
    }
}

/// The particulars of an account to be created, once they have been checked.
#[derive(Clone, Debug, PartialEq, Eq)]
pub struct TransformedWeb5CreateAccountInput {
    pub handle: String,
    pub did: String,
    pub invite_code: Option<String>,
}

/// What a [`TransformedWeb5CreateAccountInput`] holds, as plain values.
pub struct TransformedWeb5CreateAccountInputView {
    pub handle: Seq<char>,
    pub did: Seq<char>,
    pub invite_code: Option<Seq<char>>,
}

impl DeepView for TransformedWeb5CreateAccountInput {
    type V = TransformedWeb5CreateAccountInputView;

    open spec fn deep_view(&self) -> TransformedWeb5CreateAccountInputView {
        TransformedWeb5CreateAccountInputView {
            handle: self.handle.deep_view(),
            did: self.did.deep_view(),
            invite_code: self.invite_code.deep_view(),
        }
    }
}

impl View for TransformedWeb5CreateAccountInput {
    type V = TransformedWeb5CreateAccountInputView;

    open spec fn view(&self) -> TransformedWeb5CreateAccountInputView {
        self.deep_view()
    }
}

/// Asks for a handle to be normalised and validated.
#[derive(Clone, Debug, PartialEq, Eq)]
pub struct HandleCheck {
    pub handle: String,
    pub did: Option<String>,
    pub allow_reserved: Option<bool>,
}

/// What a [`HandleCheck`] holds, as plain values.
pub struct HandleCheckView {
    pub handle: Seq<char>,
    pub did: Option<Seq<char>>,
    pub allow_reserved: Option<bool>,
}

impl DeepView for HandleCheck {
    type V = HandleCheckView;

    open spec fn deep_view(&self) -> HandleCheckView {
        HandleCheckView {
            handle: self.handle.deep_view(),
            did: self.did.deep_view(),
            allow_reserved: self.allow_reserved.deep_view(),
        }
    }
}

impl View for HandleCheck {
    type V = HandleCheckView;

    open spec fn view(&self) -> HandleCheckView {
        self.deep_view()
    }
}

/// What normalising and validating a handle gave.
#[derive(Clone, Debug, PartialEq, Eq)]
pub enum HandleOutcome {
    Normalized(String),
    Failed(ApiError),
}

/// What a [`HandleOutcome`] holds, as plain values.
pub enum HandleOutcomeView {
    Normalized(Seq<char>),
    Failed(ApiError),
}

impl DeepView for HandleOutcome {
    type V = HandleOutcomeView;

    open spec fn deep_view(&self) -> HandleOutcomeView {
        match self {
            HandleOutcome::Normalized(inner) => HandleOutcomeView::Normalized(inner.deep_view()),
            HandleOutcome::Failed(inner) => HandleOutcomeView::Failed(inner.deep_view()),
        }
    }
}

impl View for HandleOutcome {
    type V = HandleOutcomeView;

    open spec fn view(&self) -> HandleOutcomeView {
        self.deep_view()
    }
}

/// What the object store gave when asked for an unsigned first commit.
#[derive(Clone, Debug, PartialEq, Eq)]
pub enum DraftOutcome {
    Drafted(PreCreateAccountOutput),
    Failed,
}

/// What a [`DraftOutcome`] holds, as plain values.
pub enum DraftOutcomeView {
    Drafted(PreCreateAccountOutputView),
    Failed,
}

impl DeepView for DraftOutcome {
    type V = DraftOutcomeView;

    open spec fn deep_view(&self) -> DraftOutcomeView {
        match self {
            DraftOutcome::Drafted(inner) => DraftOutcomeView::Drafted(inner.deep_view()),
            DraftOutcome::Failed => DraftOutcomeView::Failed,
        }
    }
}

impl View for DraftOutcome {
    type V = DraftOutcomeView;

    open spec fn view(&self) -> DraftOutcomeView {
        self.deep_view()
    }
}

/// What a run has established so far.
#[derive(Clone, Debug, PartialEq, Eq)]
pub struct PreCreateAccountState {
    pub step: PreCreateStep,
    pub did: String,
    pub invite_code: Option<String>,
    /// The domain that the server answers for, if it is set.
    pub hostname: Option<String>,
}

/// What a [`PreCreateAccountState`] holds, as plain values.
pub struct PreCreateAccountStateView {
    pub step: PreCreateStep,
    pub did: Seq<char>,
    pub invite_code: Option<Seq<char>>,
    pub hostname: Option<Seq<char>>,
}

impl DeepView for PreCreateAccountState {
    type V = PreCreateAccountStateView;

    open spec fn deep_view(&self) -> PreCreateAccountStateView {
        PreCreateAccountStateView {
            step: self.step.deep_view(),
            did: self.did.deep_view(),
            invite_code: self.invite_code.deep_view(),
            hostname: self.hostname.deep_view(),
        }
    }
}

impl View for PreCreateAccountState {
    type V = PreCreateAccountStateView;

    open spec fn view(&self) -> PreCreateAccountStateView {
        self.deep_view()
    }
}

/// What a collaborator handed back.
#[derive(Clone, Debug, PartialEq, Eq)]
pub enum PreCreateEvent {
    Handle(HandleOutcome),
    Account(AccountLookup),
    RepoDrafted(DraftOutcome),
    Destroyed(Outcome),
}

/// What a [`PreCreateEvent`] holds, as plain values.
pub enum PreCreateEventView {
    Handle(HandleOutcomeView),
    Account(AccountLookupView),
    RepoDrafted(DraftOutcomeView),
    Destroyed(Outcome),
}

impl DeepView for PreCreateEvent {
    type V = PreCreateEventView;

    open spec fn deep_view(&self) -> PreCreateEventView {
        match self {
            PreCreateEvent::Handle(inner) => PreCreateEventView::Handle(inner.deep_view()),
            PreCreateEvent::Account(inner) => PreCreateEventView::Account(inner.deep_view()),
            PreCreateEvent::RepoDrafted(inner) => PreCreateEventView::RepoDrafted(inner.deep_view()),
            PreCreateEvent::Destroyed(inner) => PreCreateEventView::Destroyed(inner.deep_view()),
        }
    }
}

impl View for PreCreateEvent {
    type V = PreCreateEventView;

    open spec fn view(&self) -> PreCreateEventView {
        self.deep_view()
    }
}

/// What to do next.
#[derive(Clone, Debug, PartialEq, Eq)]
pub enum PreCreateAction {
    /// Have the handle normalised and validated.
    NormalizeHandle(HandleCheck),
    /// Ask the account store whether the handle is taken.
    GetAccount(AccountQuery),
    /// Ask the object store for the unsigned first commit of the identity.
    PreCreateRepo(String),
    /// Ask the object store to tear the repository of the identity down.
    DestroyStore(String),
    /// The run has ended; answer the request with this.
    Succeed(PreCreateAccountOutput),
    /// The run has ended; answer the request with this error.
    Fail(ApiError),
}

/// What a [`PreCreateAction`] holds, as plain values.
pub enum PreCreateActionView {
    NormalizeHandle(HandleCheckView),
    GetAccount(AccountQueryView),
    PreCreateRepo(Seq<char>),
    DestroyStore(Seq<char>),
    Succeed(PreCreateAccountOutputView),
    Fail(ApiError),
}

impl DeepView for PreCreateAction {
    type V = PreCreateActionView;

    open spec fn deep_view(&self) -> PreCreateActionView {
        match self {
            PreCreateAction::NormalizeHandle(inner) => PreCreateActionView::NormalizeHandle(inner.deep_view()),
            PreCreateAction::GetAccount(inner) => PreCreateActionView::GetAccount(inner.deep_view()),
            PreCreateAction::PreCreateRepo(inner) => PreCreateActionView::PreCreateRepo(inner.deep_view()),
            PreCreateAction::DestroyStore(inner) => PreCreateActionView::DestroyStore(inner.deep_view()),
            PreCreateAction::Succeed(inner) => PreCreateActionView::Succeed(inner.deep_view()),
            PreCreateAction::Fail(inner) => PreCreateActionView::Fail(inner.deep_view()),
        }
    }
}

impl View for PreCreateAction {
    type V = PreCreateActionView;

    open spec fn view(&self) -> PreCreateActionView {
        self.deep_view()
    }
}

/// One turn of a run.
#[derive(Clone, Debug, PartialEq, Eq)]
pub struct PreCreateTurn {
    pub next: Option<PreCreateAccountState>,
    pub action: PreCreateAction,
}

/// What a [`PreCreateTurn`] holds, as plain values.
pub struct PreCreateTurnView {
    pub next: Option<PreCreateAccountStateView>,
    pub action: PreCreateActionView,
}

impl DeepView for PreCreateTurn {
    type V = PreCreateTurnView;

    open spec fn deep_view(&self) -> PreCreateTurnView {
        PreCreateTurnView {
            next: self.next.deep_view(),
            action: self.action.deep_view(),
        }
    }
}

impl View for PreCreateTurn {
    type V = PreCreateTurnView;

    open spec fn view(&self) -> PreCreateTurnView {
        self.deep_view()
    }
}

/// The domain that handles must belong to: the one that is set, else
/// `localhost`.
pub open spec fn handle_domain(hostname: Option<Seq<char>>) -> Seq<char> {
    match hostname {
        Some(name) => name,
        None => "localhost"@,
    }
}

/// Whether `handle` belongs to the server's domain: it ends with it.
pub open spec fn handle_allowed(handle: Seq<char>, hostname: Option<Seq<char>>) -> bool {
    is_suffix(handle_domain(hostname), handle)
}

/// Whether `handle` belongs to the server's domain.
pub fn validate_handle(handle: &str, hostname: &Option<String>) -> (out: bool)
    ensures
        out == handle_allowed(handle@, hostname.deep_view()),
{
    let suffix = match hostname {
        Some(name) => chars_of(name.as_str()),
        None => chars_of("localhost"),
    };
    has_suffix(&chars_of(handle), &suffix)
}

/// The checked particulars of an account, or the first check that fails:
/// the invite code, the validity of the handle, its domain, and that it is
/// free.
pub open spec fn validated_inputs(
    invites_required: bool,
    hostname: Option<Seq<char>>,
    input: PreCreateAccountInputView,
    normalized: HandleOutcomeView,
    taken: AccountLookupView,
) -> Result<TransformedWeb5CreateAccountInputView, ApiError> {
    if invites_required && input.invite_code is None {
        Err(ApiError::InvalidInviteCode)
    } else {
        match normalized {
            HandleOutcomeView::Failed(e) => Err(e),
            HandleOutcomeView::Normalized(handle) => if !handle_allowed(handle, hostname) {
                Err(ApiError::InvalidHandle)
            } else {
                match taken {
                    AccountLookupView::Found(_) => Err(ApiError::HandleNotAvailable),
                    AccountLookupView::Failed => Err(ApiError::Storage),
                    AccountLookupView::Absent => Ok(
                        TransformedWeb5CreateAccountInputView {
                            handle: handle,
                            did: input.did,
                            invite_code: input.invite_code,
                        },
                    ),
                }
            },
        }
    }
}

/// Checks the particulars of an account to be created, given what
/// normalising the handle and looking it up in the account store gave.
pub fn validate_inputs_for_local_pds(
    invites_required: bool,
    hostname: &Option<String>,
    input: PreCreateAccountInput,
    normalized: HandleOutcome,
    taken: AccountLookup,
) -> (out: Result<TransformedWeb5CreateAccountInput, ApiError>)
    ensures
        ok_view(out) == validated_inputs(
            invites_required,
            hostname.deep_view(),
            input@,
            normalized@,
            taken@,
        ),
{
    if invites_required && input.invite_code.is_none() {
        return Err(ApiError::InvalidInviteCode);
    }
    match normalized {
        HandleOutcome::Failed(e) => Err(e),
        HandleOutcome::Normalized(handle) => {
            if !validate_handle(handle.as_str(), hostname) {
                Err(ApiError::InvalidHandle)
            } else {
                match taken {
                    AccountLookup::Found(_) => Err(ApiError::HandleNotAvailable),
                    AccountLookup::Failed => Err(ApiError::Storage),
                    AccountLookup::Absent => Ok(
                        TransformedWeb5CreateAccountInput {
                            handle,
                            did: input.did,
                            invite_code: input.invite_code,
                        },
                    ),
                }
            }
        },
    }
}

/// The turn that ends a run with an error.
pub open spec fn pre_create_failed(e: ApiError) -> PreCreateTurnView {
    PreCreateTurnView { next: None, action: PreCreateActionView::Fail(e) }
}

/// The first turn of a run: a request without an invite code is refused
/// where the server asks for one; any other has its handle normalised.
pub open spec fn pre_create_account_first(
    input: PreCreateAccountInputView,
    invites_required: bool,
    hostname: Option<Seq<char>>,
) -> PreCreateTurnView {
    if invites_required && input.invite_code is None {
        pre_create_failed(ApiError::RuntimeError)
    } else {
        PreCreateTurnView {
            next: Some(
                PreCreateAccountStateView {
                    step: PreCreateStep::AwaitHandle,
                    did: input.did,
                    invite_code: input.invite_code,
                    hostname: hostname,
                },
            ),
            action: PreCreateActionView::NormalizeHandle(
                HandleCheckView {
                    handle: input.handle,
                    did: Some(input.did),
                    allow_reserved: None,
                },
            ),
        }
    }
}

/// The turn that follows the answer `event` in the state `state`.
pub open spec fn pre_create_account_next(
    state: PreCreateAccountStateView,
    event: PreCreateEventView,
) -> PreCreateTurnView {
    match (state.step, event) {
        (PreCreateStep::AwaitHandle, PreCreateEventView::Handle(HandleOutcomeView::Normalized(handle))) => {
            if !handle_allowed(handle, state.hostname) {
                pre_create_failed(ApiError::RuntimeError)
            } else {
                PreCreateTurnView {
                    next: Some(
                        PreCreateAccountStateView { step: PreCreateStep::AwaitAccount, ..state },
                    ),
                    action: PreCreateActionView::GetAccount(
                        AccountQueryView {
                            identifier: handle,
                            include_deactivated: None,
                            include_taken_down: None,
                        },
                    ),
                }
            }
        },
        (PreCreateStep::AwaitAccount, PreCreateEventView::Account(AccountLookupView::Absent)) => {
            PreCreateTurnView {
                next: Some(PreCreateAccountStateView { step: PreCreateStep::AwaitRepo, ..state }),
                action: PreCreateActionView::PreCreateRepo(state.did),
            }
        },
        (PreCreateStep::AwaitRepo, PreCreateEventView::RepoDrafted(DraftOutcomeView::Drafted(draft))) => {
            PreCreateTurnView { next: None, action: PreCreateActionView::Succeed(draft) }
        },
        (PreCreateStep::AwaitRepo, PreCreateEventView::RepoDrafted(DraftOutcomeView::Failed)) => {
            PreCreateTurnView {
                next: Some(
                    PreCreateAccountStateView { step: PreCreateStep::AwaitRollback, ..state },
                ),
                action: PreCreateActionView::DestroyStore(state.did),
            }
        },
        (PreCreateStep::AwaitRollback, PreCreateEventView::Destroyed(Outcome::Failed)) => {
            pre_create_failed(ApiError::Storage)
        },
        _ => pre_create_failed(ApiError::RuntimeError),
    }
}

/// The first turn of a run.
pub fn pre_create_account_start(
    input: PreCreateAccountInput,
    invites_required: bool,
    hostname: Option<String>,
) -> (out: PreCreateTurn)
    ensures
        out@ == pre_create_account_first(input@, invites_required, hostname.deep_view()),
{
    let PreCreateAccountInput { handle, did, signing_key: _, invite_code } = input;
    if invites_required && invite_code.is_none() {
        return PreCreateTurn { next: None, action: PreCreateAction::Fail(ApiError::RuntimeError) };
    }
    let action = PreCreateAction::NormalizeHandle(
        HandleCheck { handle, did: Some(did.clone()), allow_reserved: None },
    );
    PreCreateTurn {
        next: Some(
            PreCreateAccountState { step: PreCreateStep::AwaitHandle, did, invite_code, hostname },
        ),
        action,
    }
}

/// The turn that follows the answer `event` in the state `state`.
pub fn pre_create_account_step(state: PreCreateAccountState, event: PreCreateEvent) -> (out:
    PreCreateTurn)
    ensures
        out@ == pre_create_account_next(state@, event@),
{
    let failed = PreCreateTurn { next: None, action: PreCreateAction::Fail(ApiError::RuntimeError) };
    match (state.step, event) {
        (PreCreateStep::AwaitHandle, PreCreateEvent::Handle(HandleOutcome::Normalized(handle))) => {
            if !validate_handle(handle.as_str(), &state.hostname) {
                failed
            } else {
                let mut state = state;
                state.step = PreCreateStep::AwaitAccount;
                PreCreateTurn {
                    next: Some(state),
                    action: PreCreateAction::GetAccount(
                        AccountQuery {
                            identifier: handle,
                            include_deactivated: None,
                            include_taken_down: None,
                        },
                    ),
                }
            }
        },
        (PreCreateStep::AwaitAccount, PreCreateEvent::Account(AccountLookup::Absent)) => {
            let action = PreCreateAction::PreCreateRepo(state.did.clone());
            let mut state = state;
            state.step = PreCreateStep::AwaitRepo;
            PreCreateTurn { next: Some(state), action }
        },
        (PreCreateStep::AwaitRepo, PreCreateEvent::RepoDrafted(DraftOutcome::Drafted(draft))) => {
            PreCreateTurn { next: None, action: PreCreateAction::Succeed(draft) }
        },
        (PreCreateStep::AwaitRepo, PreCreateEvent::RepoDrafted(DraftOutcome::Failed)) => {
            let action = PreCreateAction::DestroyStore(state.did.clone());
            let mut state = state;
            state.step = PreCreateStep::AwaitRollback;
            PreCreateTurn { next: Some(state), action }
        },
        (PreCreateStep::AwaitRollback, PreCreateEvent::Destroyed(Outcome::Failed)) => PreCreateTurn {
            next: None,
            action: PreCreateAction::Fail(ApiError::Storage),
        },
        _ => failed,
    }
}

/// The run asks the object store for a commit only after every check has
/// passed: the handle that came back belongs to the server's domain, and
/// the account store holds no account for it.
pub proof fn lemma_repo_is_drafted_after_checks(
    state: PreCreateAccountStateView,
    event: PreCreateEventView,
)
    requires
        pre_create_account_next(state, event).action is PreCreateRepo,
    ensures
        state.step == PreCreateStep::AwaitAccount,
        event == PreCreateEventView::Account(AccountLookupView::Absent),
{
}

/// The identity for whose repository a run asks the object store, once the
/// handle has come back as `normalized` and the account store has answered
/// `taken`; `None` where the run ends before it asks.
pub open spec fn drafted_for(
    input: PreCreateAccountInputView,
    invites_required: bool,
    hostname: Option<Seq<char>>,
    normalized: HandleOutcomeView,
    taken: AccountLookupView,
) -> Option<Seq<char>> {
    match pre_create_account_first(input, invites_required, hostname).next {
        None => None,
        Some(waiting) => match pre_create_account_next(
            waiting,
            PreCreateEventView::Handle(normalized),
        ).next {
            None => None,
            Some(looking) => match pre_create_account_next(
                looking,
                PreCreateEventView::Account(taken),
            ).action {
                PreCreateActionView::PreCreateRepo(did) => Some(did),
                _ => None,
            },
        },
    }
}

/// The run and the check of the particulars agree: the run asks the object
/// store for the first commit exactly when the particulars pass every
/// check, and then for the identity that was checked. The account that the
/// run looks up on the way is the one of the normalised handle.
pub proof fn lemma_run_drafts_iff_inputs_are_valid(
    input: PreCreateAccountInputView,
    invites_required: bool,
    hostname: Option<Seq<char>>,
    normalized: HandleOutcomeView,
    taken: AccountLookupView,
)
    ensures
        drafted_for(input, invites_required, hostname, normalized, taken) == match validated_inputs(
            invites_required,
            hostname,
            input,
            normalized,
            taken,
        ) {
            Ok(checked) => Some(checked.did),
            Err(_) => None,
        },
        validated_inputs(invites_required, hostname, input, normalized, AccountLookupView::Absent)
            matches Ok(checked) ==> pre_create_account_next(
            pre_create_account_first(input, invites_required, hostname).next->0,
            PreCreateEventView::Handle(normalized),
        ).action == PreCreateActionView::GetAccount(
            AccountQueryView {
                identifier: checked.handle,
                include_deactivated: None,
                include_taken_down: None,
            },
        ),
{
}

} // verus!
