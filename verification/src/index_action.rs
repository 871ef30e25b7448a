//! The privileged actions: opening a session and deleting an account on the
//! strength of a signed challenge alone.
//!
//! A request runs through these stations: the account is looked up, the
//! identity document is resolved, the account and the signing key are
//! checked against it, the challenge is checked for freshness and for its
//! statement, the signature is verified, and only then the action is carried
//! out and announced. Nothing is changed before the signature has verified.
//!
//! The run is a sequence of turns. [`index_action_start`] and
//! [`index_action_step`] say what to ask of a collaborator next; the caller
//! asks and hands the answer back. From the first event handed to the log
//! until the end of the run the caller holds the log for itself.

use crate::binding::{authorisation, authorise, binding, check_binding};
use crate::challenge::unix_now;
use crate::collab::{
    lowercase, to_lower, Account, AccountEvent, AccountEventView, AccountLookup,
    AccountLookupView, AccountQuery, AccountQueryView, AccountStatus, AccountView, Compaction,
    deletion_work, CompactionView, Emission, EmissionView, LogWork, Outcome, Resolution, ResolutionView,
    SequenceOutcome, SequenceOutcomeView, SessionOutcome, SessionOutcomeView,
};
use crate::error::ApiError;
use crate::lexicon::{
    IndexActionInput, IndexActionInputRef, IndexActionInputRefView, IndexActionInputView,
    IndexActionOutput, IndexActionOutputRefResult, IndexActionOutputRefResultView,
    IndexActionOutputView, RefCreateSessionResult, RefCreateSessionResultView,
    RefDeleteAccountResult, RefDeleteAccountResultView,
};
use crate::plc_types::{Web5DocumentData, Web5DocumentDataView};
use vstd::prelude::*;

verus! {

/// The station at which a run waits.
#[derive(Clone, Copy, Debug, PartialEq, Eq, Structural)]
pub enum IndexStep {
    /// The account store has been asked for the account.
    AwaitAccount,
    /// The resolver has been asked for the identity document.
    AwaitDocument,
    /// The account store has been asked for a session.
    AwaitSession,
    /// The object store has been asked to destroy the repository.
    AwaitDestroy,
    /// The account store has been asked to delete the account.
    AwaitDelete,
    /// The log has been handed the event that the account is deleted.
    AwaitStatusEvent,
    /// The log has been asked to drop the earlier events of the identity.
    AwaitCompaction,
}

impl DeepView for IndexStep {
    type V = IndexStep;

    open spec fn deep_view(&self) -> IndexStep {
        *self
    }
}

/// What a run has established so far.
#[derive(Clone, Debug, PartialEq, Eq)]
pub struct IndexActionState {
    pub step: IndexStep,
    /// The identity, in lower case.
    pub did: String,
    pub ckb_addr: String,
    pub message: String,
    pub signing_key: String,
    pub signed_bytes: String,
    pub index: IndexActionInputRef,
    /// The account, once it has been found.
    pub user: Option<Account>,
    /// The identity document, once it has been resolved.
    pub did_doc: Option<Web5DocumentData>,
    /// The handle that the document binds; empty until then.
    pub handle: String,
}

/// What a [`IndexActionState`] holds, as plain values.
pub struct IndexActionStateView {
    pub step: IndexStep,
    pub did: Seq<char>,
    pub ckb_addr: Seq<char>,
    pub message: Seq<char>,
    pub signing_key: Seq<char>,
    pub signed_bytes: Seq<char>,
    pub index: IndexActionInputRefView,
    pub user: Option<AccountView>,
    pub did_doc: Option<Web5DocumentDataView>,
    pub handle: Seq<char>,
}

impl DeepView for IndexActionState {
    type V = IndexActionStateView;

    open spec fn deep_view(&self) -> IndexActionStateView {
        IndexActionStateView {
            step: self.step.deep_view(),
            did: self.did.deep_view(),
            ckb_addr: self.ckb_addr.deep_view(),
            message: self.message.deep_view(),
            signing_key: self.signing_key.deep_view(),
            signed_bytes: self.signed_bytes.deep_view(),
            index: self.index.deep_view(),
            user: self.user.deep_view(),
            did_doc: self.did_doc.deep_view(),
            handle: self.handle.deep_view(),
        }
    }
}

impl View for IndexActionState {
    type V = IndexActionStateView;

    open spec fn view(&self) -> IndexActionStateView {
        self.deep_view()
    }
}

/// What a collaborator handed back.
#[derive(Clone, Debug, PartialEq, Eq)]
pub enum IndexEvent {
    Account(AccountLookup),
    Document(Resolution),
    Session(SessionOutcome),
    Destroyed(Outcome),
    Deleted(Outcome),
    Sequenced(SequenceOutcome),
    Compacted(Outcome),
}

/// What a [`IndexEvent`] holds, as plain values.
pub enum IndexEventView {
    Account(AccountLookupView),
    Document(ResolutionView),
    Session(SessionOutcomeView),
    Destroyed(Outcome),
    Deleted(Outcome),
    Sequenced(SequenceOutcomeView),
    Compacted(Outcome),
}

impl DeepView for IndexEvent {
    type V = IndexEventView;

    open spec fn deep_view(&self) -> IndexEventView {
        match self {
            IndexEvent::Account(inner) => IndexEventView::Account(inner.deep_view()),
            IndexEvent::Document(inner) => IndexEventView::Document(inner.deep_view()),
            IndexEvent::Session(inner) => IndexEventView::Session(inner.deep_view()),
            IndexEvent::Destroyed(inner) => IndexEventView::Destroyed(inner.deep_view()),
            IndexEvent::Deleted(inner) => IndexEventView::Deleted(inner.deep_view()),
            IndexEvent::Sequenced(inner) => IndexEventView::Sequenced(inner.deep_view()),
            IndexEvent::Compacted(inner) => IndexEventView::Compacted(inner.deep_view()),
        }
    }
}

impl View for IndexEvent {
    type V = IndexEventView;

    open spec fn view(&self) -> IndexEventView {
        self.deep_view()
    }
}

/// What to do next.
#[derive(Clone, Debug, PartialEq, Eq)]
pub enum IndexAction {
    /// Ask the account store for the account.
    GetAccount(AccountQuery),
    /// Ask the resolver for the identity document of the ledger address.
    Resolve(String),
    /// Ask the account store for a session of the account.
    CreateSession(String),
    /// Ask the object store to destroy the repository of the identity.
    DestroyStore(String),
    /// Ask the account store to delete the account.
    DeleteAccount(String),
    /// Hand the event to the log.
    Emit(Emission),
    /// Ask the log to drop the earlier events of the identity.
    Compact(Compaction),
    /// The run has ended; answer the request with this.
    Succeed(IndexActionOutput),
    /// The run has ended; answer the request with this error.
    Fail(ApiError),
}

/// What a [`IndexAction`] holds, as plain values.
pub enum IndexActionView {
    GetAccount(AccountQueryView),
    Resolve(Seq<char>),
    CreateSession(Seq<char>),
    DestroyStore(Seq<char>),
    DeleteAccount(Seq<char>),
    Emit(EmissionView),
    Compact(CompactionView),
    Succeed(IndexActionOutputView),
    Fail(ApiError),
}

impl DeepView for IndexAction {
    type V = IndexActionView;

    open spec fn deep_view(&self) -> IndexActionView {
        match self {
            IndexAction::GetAccount(inner) => IndexActionView::GetAccount(inner.deep_view()),
            IndexAction::Resolve(inner) => IndexActionView::Resolve(inner.deep_view()),
            IndexAction::CreateSession(inner) => IndexActionView::CreateSession(inner.deep_view()),
            IndexAction::DestroyStore(inner) => IndexActionView::DestroyStore(inner.deep_view()),
            IndexAction::DeleteAccount(inner) => IndexActionView::DeleteAccount(inner.deep_view()),
            IndexAction::Emit(inner) => IndexActionView::Emit(inner.deep_view()),
            IndexAction::Compact(inner) => IndexActionView::Compact(inner.deep_view()),
            IndexAction::Succeed(inner) => IndexActionView::Succeed(inner.deep_view()),
            IndexAction::Fail(inner) => IndexActionView::Fail(inner.deep_view()),
        }
    }
}

impl View for IndexAction {
    type V = IndexActionView;

    open spec fn view(&self) -> IndexActionView {
        self.deep_view()
    }
}

/// One turn of a run: what to do next, and the state to come back with. A
/// run that has ended has no state to come back with.
#[derive(Clone, Debug, PartialEq, Eq)]
pub struct IndexTurn {
    pub next: Option<IndexActionState>,
    pub action: IndexAction,
}

/// What a [`IndexTurn`] holds, as plain values.
pub struct IndexTurnView {
    pub next: Option<IndexActionStateView>,
    pub action: IndexActionView,
}

impl DeepView for IndexTurn {
    type V = IndexTurnView;

    open spec fn deep_view(&self) -> IndexTurnView {
        IndexTurnView {
            next: self.next.deep_view(),
            action: self.action.deep_view(),
        }
    }
}

impl View for IndexTurn {
    type V = IndexTurnView;

    open spec fn view(&self) -> IndexTurnView {
        self.deep_view()
    }
}

/// The turn that ends a run with an error.
pub open spec fn index_failed(e: ApiError) -> IndexTurnView {
    IndexTurnView { next: None, action: IndexActionView::Fail(e) }
}

/// The first turn of a run: a request without a ledger address is refused,
/// any other asks for the account of the identity, deactivated and taken
/// down accounts included.
pub open spec fn index_action_first(input: IndexActionInputView) -> IndexTurnView {
    match input.ckb_addr {
        None => index_failed(ApiError::CkbAddrNotFound),
        Some(ckb_addr) => IndexTurnView {
            next: Some(
                IndexActionStateView {
                    step: IndexStep::AwaitAccount,
                    did: lowercase(input.did),
                    ckb_addr: ckb_addr,
                    message: input.message,
                    signing_key: input.signing_key,
                    signed_bytes: input.signed_bytes,
                    index: input.index,
                    user: None,
                    did_doc: None,
                    handle: Seq::empty(),
                },
            ),
            action: IndexActionView::GetAccount(
                AccountQueryView {
                    identifier: lowercase(input.did),
                    include_deactivated: Some(true),
                    include_taken_down: Some(true),
                },
            ),
        },
    }
}

/// What the answer of the resolver means for the run: the identity
/// document with the handle it binds, once the account and the key have
/// been checked against it. Without a document there is nothing to bind the
/// key to, so every failure of the resolver, the missing document among
/// them, ends the run, whatever the action.
pub open spec fn index_identity(
    resolution: ResolutionView,
    account_handle: Option<Seq<char>>,
    signing_key: Seq<char>,
) -> Result<(Web5DocumentDataView, Seq<char>), ApiError> {
    match resolution {
        ResolutionView::Found(doc) => match binding(doc, account_handle, signing_key) {
            Ok(handle) => Ok((doc, handle)),
            Err(e) => Err(e),
        },
        ResolutionView::Failed(e) => Err(e),
    }
}

/// The turn that follows the answer `event` in the state `state`, for the
/// reading `now` of the clock.
pub open spec fn index_action_next(
    state: IndexActionStateView,
    event: IndexEventView,
    now: Option<u64>,
) -> IndexTurnView {
    match (state.step, event) {
        (IndexStep::AwaitAccount, IndexEventView::Account(AccountLookupView::Found(user))) => {
            if user.ckb_address != Some(state.ckb_addr) {
                index_failed(ApiError::InvalidRequest(crate::error::RequestFault::AddressInconsistent))
            } else {
                IndexTurnView {
                    next: Some(
                        IndexActionStateView {
                            step: IndexStep::AwaitDocument,
                            user: Some(user),
                            ..state
                        },
                    ),
                    action: IndexActionView::Resolve(state.ckb_addr),
                }
            }
        },
        (IndexStep::AwaitAccount, IndexEventView::Account(_)) => index_failed(
            ApiError::InvalidLogin,
        ),
        (IndexStep::AwaitDocument, IndexEventView::Document(resolution)) => match state.user {
            None => index_failed(ApiError::RuntimeError),
            Some(user) => match index_identity(resolution, user.handle, state.signing_key) {
                Err(e) => index_failed(e),
                Ok((doc, handle)) => match authorisation(
                    state.message,
                    state.index.statement_text(),
                    state.signing_key,
                    state.signed_bytes,
                    now,
                ) {
                    Some(e) => index_failed(e),
                    None => match state.index {
                        IndexActionInputRefView::CreateSessionIndex(_) => IndexTurnView {
                            next: Some(
                                IndexActionStateView {
                                    step: IndexStep::AwaitSession,
                                    did_doc: Some(doc),
                                    handle: handle,
                                    ..state
                                },
                            ),
                            action: IndexActionView::CreateSession(user.did),
                        },
                        IndexActionInputRefView::DeleteAccountIndex(_) => IndexTurnView {
                            next: Some(
                                IndexActionStateView {
                                    step: IndexStep::AwaitDestroy,
                                    did_doc: Some(doc),
                                    handle: handle,
                                    ..state
                                },
                            ),
                            action: IndexActionView::DestroyStore(state.did),
                        },
                    },
                },
            },
        },
        (IndexStep::AwaitSession, IndexEventView::Session(SessionOutcomeView::Opened(tokens))) => {
            match state.user {
                None => index_failed(ApiError::RuntimeError),
                Some(user) => IndexTurnView {
                    next: None,
                    action: IndexActionView::Succeed(
                        IndexActionOutputView {
                            result: IndexActionOutputRefResultView::CreateSessionResult(
                                RefCreateSessionResultView {
                                    did: state.did,
                                    did_doc: state.did_doc,
                                    handle: state.handle,
                                    email: user.email,
                                    email_confirmed: Some(user.email_confirmed),
                                    access_jwt: tokens.access_jwt,
                                    refresh_jwt: tokens.refresh_jwt,
                                },
                            ),
                        },
                    ),
                },
            }
        },
        (IndexStep::AwaitSession, IndexEventView::Session(SessionOutcomeView::Failed)) => {
            index_failed(ApiError::RuntimeError)
        },
        (IndexStep::AwaitDestroy, IndexEventView::Destroyed(Outcome::Done)) => IndexTurnView {
            next: Some(IndexActionStateView { step: IndexStep::AwaitDelete, ..state }),
            action: IndexActionView::DeleteAccount(state.did),
        },
        (IndexStep::AwaitDestroy, IndexEventView::Destroyed(Outcome::Failed)) => index_failed(
            ApiError::Storage,
        ),
        (IndexStep::AwaitDelete, IndexEventView::Deleted(Outcome::Done)) => IndexTurnView {
            next: Some(IndexActionStateView { step: IndexStep::AwaitStatusEvent, ..state }),
            action: IndexActionView::Emit(
                EmissionView::Account(
                    AccountEventView { did: state.did, status: AccountStatus::Deleted },
                ),
            ),
        },
        (IndexStep::AwaitDelete, IndexEventView::Deleted(Outcome::Failed)) => index_failed(
            ApiError::Storage,
        ),
        (
            IndexStep::AwaitStatusEvent,
            IndexEventView::Sequenced(SequenceOutcomeView::Sequenced(seq)),
        ) => IndexTurnView {
            next: Some(IndexActionStateView { step: IndexStep::AwaitCompaction, ..state }),
            action: IndexActionView::Compact(CompactionView { did: state.did, except: seq![seq] }),
        },
        (IndexStep::AwaitStatusEvent, IndexEventView::Sequenced(SequenceOutcomeView::Failed)) => {
            index_failed(ApiError::Sequencer)
        },
        (IndexStep::AwaitCompaction, IndexEventView::Compacted(Outcome::Done)) => IndexTurnView {
            next: None,
            action: IndexActionView::Succeed(
                IndexActionOutputView {
                    result: IndexActionOutputRefResultView::DeleteAccountResult(
                        RefDeleteAccountResultView {  },
                    ),
                },
            ),
        },
        (IndexStep::AwaitCompaction, IndexEventView::Compacted(Outcome::Failed)) => index_failed(
            ApiError::Sequencer,
        ),
        _ => index_failed(ApiError::RuntimeError),
    }
}

/// The turn that ends a run with an error.
fn fail(e: ApiError) -> (out: IndexTurn)
    ensures
        out@ == index_failed(e),
{
    IndexTurn { next: None, action: IndexAction::Fail(e) }
}

/// The first turn of a run.
pub fn index_action_start(input: IndexActionInput) -> (out: IndexTurn)
    ensures
        out@ == index_action_first(input@),
{
    let IndexActionInput { did, message, signing_key, signed_bytes, ckb_addr, index } = input;
    match ckb_addr {
        None => fail(ApiError::CkbAddrNotFound),
        Some(ckb_addr) => {
            let did = to_lower(did.as_str());
            let query = AccountQuery {
                identifier: did.clone(),
                include_deactivated: Some(true),
                include_taken_down: Some(true),
            };
            IndexTurn {
                next: Some(
                    IndexActionState {
                        step: IndexStep::AwaitAccount,
                        did,
                        ckb_addr,
                        message,
                        signing_key,
                        signed_bytes,
                        index,
                        user: None,
                        did_doc: None,
                        handle: String::new(),
                    },
                ),
                action: IndexAction::GetAccount(query),
            }
        },
    }
}

/// What the answer of the resolver means for the run.
fn identify(resolution: Resolution, account_handle: &Option<String>, signing_key: &String) -> (out:
    Result<(Web5DocumentData, String), ApiError>)
    ensures
        match out {
            Ok((doc, handle)) => Ok::<(Web5DocumentDataView, Seq<char>), ApiError>(
                (doc@, handle@),
            ),
            Err(e) => Err(e),
        } == index_identity(resolution@, account_handle.deep_view(), signing_key@),
{
    match resolution {
        Resolution::Found(doc) => match check_binding(&doc, account_handle, signing_key) {
            Ok(handle) => Ok((doc, handle)),
            Err(e) => Err(e),
        },
        Resolution::Failed(e) => Err(e),
    }
}

/// The turn that follows the answer `event` in the state `state`, for the
/// reading `now` of the clock.
pub fn index_action_step_at(state: IndexActionState, event: IndexEvent, now: Option<u64>) -> (out:
    IndexTurn)
    ensures
        out@ == index_action_next(state@, event@, now),
{
    let IndexActionState {
        step,
        did,
        ckb_addr,
        message,
        signing_key,
        signed_bytes,
        index,
        user,
        did_doc,
        handle,
    } = state;
    match (step, event) {
        (IndexStep::AwaitAccount, IndexEvent::Account(AccountLookup::Found(found))) => {
            let same = match &found.ckb_address {
                Some(address) => *address == ckb_addr,
                None => false,
            };
            if !same {
                fail(ApiError::InvalidRequest(crate::error::RequestFault::AddressInconsistent))
            } else {
                let action = IndexAction::Resolve(ckb_addr.clone());
                IndexTurn {
                    next: Some(
                        IndexActionState {
                            step: IndexStep::AwaitDocument,
                            did,
                            ckb_addr,
                            message,
                            signing_key,
                            signed_bytes,
                            index,
                            user: Some(found),
                            did_doc,
                            handle,
                        },
                    ),
                    action,
                }
            }
        },
        (IndexStep::AwaitAccount, IndexEvent::Account(_)) => fail(ApiError::InvalidLogin),
        (IndexStep::AwaitDocument, IndexEvent::Document(resolution)) => match user {
            None => fail(ApiError::RuntimeError),
            Some(account) => match identify(resolution, &account.handle, &signing_key) {
                Err(e) => fail(e),
                Ok((resolved, bound)) => {
                    let statement = index.statement();
                    match authorise(
                        message.as_str(),
                        statement.as_str(),
                        &signing_key,
                        signed_bytes.as_str(),
                        now,
                    ) {
                        Some(e) => fail(e),
                        None => {
                            let deleting = match &index {
                                IndexActionInputRef::CreateSessionIndex(_) => false,
                                IndexActionInputRef::DeleteAccountIndex(_) => true,
                            };
                            let action = if deleting {
                                IndexAction::DestroyStore(did.clone())
                            } else {
                                IndexAction::CreateSession(account.did.clone())
                            };
                            IndexTurn {
                                next: Some(
                                    IndexActionState {
                                        step: if deleting {
                                            IndexStep::AwaitDestroy
                                        } else {
                                            IndexStep::AwaitSession
                                        },
                                        did,
                                        ckb_addr,
                                        message,
                                        signing_key,
                                        signed_bytes,
                                        index,
                                        user: Some(account),
                                        did_doc: Some(resolved),
                                        handle: bound,
                                    },
                                ),
                                action,
                            }
                        },
                    }
                },
            },
        },
        (IndexStep::AwaitSession, IndexEvent::Session(SessionOutcome::Opened(tokens))) => {
            match user {
                None => fail(ApiError::RuntimeError),
                Some(account) => IndexTurn {
                    next: None,
                    action: IndexAction::Succeed(
                        IndexActionOutput {
                            result: IndexActionOutputRefResult::CreateSessionResult(
                                RefCreateSessionResult {
                                    did,
                                    did_doc,
                                    handle,
                                    email: account.email,
                                    email_confirmed: Some(account.email_confirmed),
                                    access_jwt: tokens.access_jwt,
                                    refresh_jwt: tokens.refresh_jwt,
                                },
                            ),
                        },
                    ),
                },
            }
        },
        (IndexStep::AwaitSession, IndexEvent::Session(SessionOutcome::Failed)) => fail(
            ApiError::RuntimeError,
        ),
        (IndexStep::AwaitDestroy, IndexEvent::Destroyed(Outcome::Done)) => {
            let action = IndexAction::DeleteAccount(did.clone());
            IndexTurn {
                next: Some(
                    IndexActionState {
                        step: IndexStep::AwaitDelete,
                        did,
                        ckb_addr,
                        message,
                        signing_key,
                        signed_bytes,
                        index,
                        user,
                        did_doc,
                        handle,
                    },
                ),
                action,
            }
        },
        (IndexStep::AwaitDestroy, IndexEvent::Destroyed(Outcome::Failed)) => fail(
            ApiError::Storage,
        ),
        (IndexStep::AwaitDelete, IndexEvent::Deleted(Outcome::Done)) => {
            let action = IndexAction::Emit(
                Emission::Account(AccountEvent { did: did.clone(), status: AccountStatus::Deleted }),
            );
            IndexTurn {
                next: Some(
                    IndexActionState {
                        step: IndexStep::AwaitStatusEvent,
                        did,
                        ckb_addr,
                        message,
                        signing_key,
                        signed_bytes,
                        index,
                        user,
                        did_doc,
                        handle,
                    },
                ),
                action,
            }
        },
        (IndexStep::AwaitDelete, IndexEvent::Deleted(Outcome::Failed)) => fail(ApiError::Storage),
        (IndexStep::AwaitStatusEvent, IndexEvent::Sequenced(SequenceOutcome::Sequenced(seq))) => {
            let mut except: Vec<u64> = Vec::new();
            except.push(seq);
            assert(except.deep_view() =~= seq![seq]);
            let action = IndexAction::Compact(Compaction { did: did.clone(), except });
            IndexTurn {
                next: Some(
                    IndexActionState {
                        step: IndexStep::AwaitCompaction,
                        did,
                        ckb_addr,
                        message,
                        signing_key,
                        signed_bytes,
                        index,
                        user,
                        did_doc,
                        handle,
                    },
                ),
                action,
            }
        },
        (IndexStep::AwaitStatusEvent, IndexEvent::Sequenced(SequenceOutcome::Failed)) => fail(
            ApiError::Sequencer,
        ),
        (IndexStep::AwaitCompaction, IndexEvent::Compacted(Outcome::Done)) => IndexTurn {
            next: None,
            action: IndexAction::Succeed(
                IndexActionOutput {
                    result: IndexActionOutputRefResult::DeleteAccountResult(
                        RefDeleteAccountResult {  },
                    ),
                },
            ),
        },
        (IndexStep::AwaitCompaction, IndexEvent::Compacted(Outcome::Failed)) => fail(
            ApiError::Sequencer,
        ),
        _ => fail(ApiError::RuntimeError),
    }
}

/// The turn that follows the answer `event` in the state `state`, by the
/// local clock.
pub fn index_action_step(state: IndexActionState, event: IndexEvent) -> (out: IndexTurn)
    ensures
        exists|now: Option<u64>| out@ == #[trigger] index_action_next(state@, event@, now),
{
    let now = unix_now();
    let out = index_action_step_at(state, event, now);
    assert(out@ == index_action_next(state@, event@, now));
    out
}

/// Nothing is changed before the signature has verified: the run asks for a
/// session, or for the repository to be destroyed, only from the station
/// where the identity document comes in, and only where the resolver has
/// given a document that binds the account and the key, and the signed
/// challenge authorises the action at that time.
pub proof fn lemma_action_follows_authorisation(
    state: IndexActionStateView,
    event: IndexEventView,
    now: Option<u64>,
)
    requires
        index_action_next(state, event, now).action is CreateSession || index_action_next(
            state,
            event,
            now,
        ).action is DestroyStore,
    ensures
        state.step == IndexStep::AwaitDocument,
        event is Document,
        state.user is Some,
        index_identity(event->Document_0, state.user->0.handle, state.signing_key) is Ok,
        authorisation(
            state.message,
            state.index.statement_text(),
            state.signing_key,
            state.signed_bytes,
            now,
        ) is None,
{
}

/// The actions of a run that starts with `turn` and is handed `inputs`, each
/// an answer with the reading of the clock at its time, for as long as the
/// run goes on.
pub open spec fn index_run(turn: IndexTurnView, inputs: Seq<(IndexEventView, Option<u64>)>) -> Seq<
    IndexActionView,
>
    decreases inputs.len(),
{
    match turn.next {
        None => seq![turn.action],
        Some(state) => if inputs.len() == 0 {
            seq![turn.action]
        } else {
            seq![turn.action] + index_run(
                index_action_next(state, inputs[0].0, inputs[0].1),
                inputs.skip(1),
            )
        },
    }
}

/// What `actions` ask of the log, in order.
pub open spec fn index_log_work(actions: Seq<IndexActionView>) -> Seq<LogWork>
    decreases actions.len(),
{
    if actions.len() == 0 {
        Seq::empty()
    } else {
        match actions[0] {
            IndexActionView::Emit(e) => seq![LogWork::Announce(e.kind())] + index_log_work(
                actions.skip(1),
            ),
            IndexActionView::Compact(_) => seq![LogWork::Compact] + index_log_work(actions.skip(1)),
            _ => index_log_work(actions.skip(1)),
        }
    }
}

/// How much of the work of a deletion has been asked of the log once a run
/// stands at `step` with its action issued.
pub open spec fn asked_by(step: IndexStep) -> int {
    match step {
        IndexStep::AwaitStatusEvent => 1,
        IndexStep::AwaitCompaction => 2,
        _ => 0,
    }
}

/// Whether `action` asks something of the log.
pub open spec fn is_log_work(action: IndexActionView) -> bool {
    action is Emit || action is Compact
}

/// The action of a turn is the one that belongs to its station: the event
/// that the account is deleted where the run waits for the log to take it,
/// compaction where it waits for that, and nothing for the log elsewhere.
pub open spec fn index_turn_in_order(turn: IndexTurnView) -> bool {
    match turn.next {
        None => !is_log_work(turn.action),
        Some(state) => match state.step {
            IndexStep::AwaitStatusEvent => turn.action matches IndexActionView::Emit(
                EmissionView::Account(e),
            ) && e.status == AccountStatus::Deleted && e.did == state.did,
            IndexStep::AwaitCompaction => turn.action matches IndexActionView::Compact(c) && c.did
                == state.did && c.except.len() == 1,
            _ => !is_log_work(turn.action),
        },
    }
}

/// What a run from `turn` on can still ask of the log, the action of `turn`
/// itself included.
pub open spec fn index_still_to_ask(turn: IndexTurnView) -> Seq<LogWork> {
    match turn.next {
        None => Seq::empty(),
        Some(state) => if is_log_work(turn.action) {
            deletion_work().skip(asked_by(state.step) - 1)
        } else {
            deletion_work().skip(asked_by(state.step))
        },
    }
}

/// Every turn that follows an answer is in order.
pub proof fn lemma_index_next_turn_in_order(
    state: IndexActionStateView,
    event: IndexEventView,
    now: Option<u64>,
)
    ensures
        index_turn_in_order(index_action_next(state, event, now)),
{
}

/// From a turn that is in order, a run asks of the log an initial part of
/// what is still to be asked, whatever answers it gets.
pub proof fn lemma_index_run_asks_in_order(
    turn: IndexTurnView,
    inputs: Seq<(IndexEventView, Option<u64>)>,
)
    requires
        index_turn_in_order(turn),
    ensures
        index_log_work(index_run(turn, inputs)).is_prefix_of(index_still_to_ask(turn)),
    decreases inputs.len(),
{
    let run = index_run(turn, inputs);
    assert(deletion_work().len() == 2);
    let own: Seq<LogWork> = match turn.action {
        IndexActionView::Emit(e) => seq![LogWork::Announce(e.kind())],
        IndexActionView::Compact(_) => seq![LogWork::Compact],
        _ => Seq::empty(),
    };
    match turn.next {
        None => {
            assert(run.skip(1) =~= Seq::empty());
            assert(index_log_work(run.skip(1)) =~= Seq::empty());
            assert(index_log_work(run) =~= Seq::empty());
        },
        Some(state) => {
            if inputs.len() == 0 {
                assert(run.skip(1) =~= Seq::empty());
                assert(index_log_work(run.skip(1)) =~= Seq::empty());
                assert(index_log_work(run) =~= own);
                if is_log_work(turn.action) {
                    assert(index_still_to_ask(turn)[0] == own[0]);
                }
            } else {
                let following = index_action_next(state, inputs[0].0, inputs[0].1);
                let rest = index_run(following, inputs.skip(1));
                lemma_index_next_turn_in_order(state, inputs[0].0, inputs[0].1);
                lemma_index_run_asks_in_order(following, inputs.skip(1));
                assert(run.skip(1) =~= rest);
                let later = index_log_work(rest);
                assert(index_log_work(run) =~= own + later);
                if is_log_work(turn.action) {
                    assert(index_still_to_ask(turn)[0] == own[0]);
                    assert(index_still_to_ask(following) =~= index_still_to_ask(turn).skip(1)
                        || index_still_to_ask(following) =~= Seq::<LogWork>::empty());
                    assert forall|i: int| 0 <= i < index_log_work(run).len() implies index_log_work(
                        run,
                    )[i] == index_still_to_ask(turn)[i] by {
                        if i > 0 {
                            assert(index_log_work(run)[i] == later[i - 1]);
                            assert(later[i - 1] == index_still_to_ask(following)[i - 1]);
                        }
                    }
                } else {
                    assert(index_still_to_ask(following) =~= index_still_to_ask(turn)
                        || index_still_to_ask(following) =~= Seq::<LogWork>::empty());
                }
            }
        },
    }
}

/// A privileged action asks of the log at most this, in this order: to take
/// the event that the account is deleted, then to drop the earlier events
/// of the identity. Nothing else is ever handed to the log.
pub proof fn lemma_deletion_is_announced_then_compacted(
    input: IndexActionInputView,
    inputs: Seq<(IndexEventView, Option<u64>)>,
)
    ensures
        index_log_work(index_run(index_action_first(input), inputs)).is_prefix_of(deletion_work()),
{
    let first = index_action_first(input);
    lemma_index_run_asks_in_order(first, inputs);
    if first.next is Some {
        assert(index_still_to_ask(first) =~= deletion_work());
    }
}

} // verus!
