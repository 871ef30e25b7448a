//! What the server's collaborators are asked and what they hand back.
//!
//! The account store, the object store, the event log and the identity
//! resolver work outside this library. A request is carried through as a
//! run of turns: the library says what to ask next, the caller asks it and
//! hands the answer back. The types here are the vocabulary of those
//! questions and answers.

use crate::commit::{AppliedCommit, AppliedCommitView};
use crate::error::ApiError;
use crate::plc_types::{Web5DocumentData, Web5DocumentDataView};
use vstd::prelude::*;

verus! {

/// How an account stands, as the event log announces it.
#[derive(Clone, Copy, Debug, PartialEq, Eq, Structural)]
pub enum AccountStatus {
    Active,
    Takendown,
    Suspended,
    Deleted,
    Deactivated,
}

impl DeepView for AccountStatus {
    type V = AccountStatus;

    open spec fn deep_view(&self) -> AccountStatus {
        *self
    }
}

/// Whether a collaborator did what it was asked.
#[derive(Clone, Copy, Debug, PartialEq, Eq, Structural)]
pub enum Outcome {
    Done,
    Failed,
}

impl DeepView for Outcome {
    type V = Outcome;

    open spec fn deep_view(&self) -> Outcome {
        *self
    }
}

/// The four kinds of event that the log takes.
#[derive(Clone, Copy, Debug, PartialEq, Eq, Structural)]
pub enum EventKind {
    Identity,
    AccountStatus,
    Commit,
    Sync,
}

/// An account as the account store holds it.
#[derive(Clone, Debug, PartialEq, Eq)]
pub struct Account {
    pub did: String,
    pub handle: Option<String>,
    /// The ledger address that the account is bound to.
    pub ckb_address: Option<String>,
    pub email: Option<String>,
    pub email_confirmed: bool,
    pub deactivated: bool,
}

/// What a [`Account`] holds, as plain values.
pub struct AccountView {
    pub did: Seq<char>,
    pub handle: Option<Seq<char>>,
    pub ckb_address: Option<Seq<char>>,
    pub email: Option<Seq<char>>,
    pub email_confirmed: bool,
    pub deactivated: bool,
}

impl DeepView for Account {
    type V = AccountView;

    open spec fn deep_view(&self) -> AccountView {
        AccountView {
            did: self.did.deep_view(),
            handle: self.handle.deep_view(),
            ckb_address: self.ckb_address.deep_view(),
            email: self.email.deep_view(),
            email_confirmed: self.email_confirmed.deep_view(),
            deactivated: self.deactivated.deep_view(),
        }
    }
}

impl View for Account {
    type V = AccountView;

    open spec fn view(&self) -> AccountView {
        self.deep_view()
    }
}

/// A lookup in the account store, by handle or DID.
#[derive(Clone, Debug, PartialEq, Eq)]
pub struct AccountQuery {
    pub identifier: String,
    pub include_deactivated: Option<bool>,
    pub include_taken_down: Option<bool>,
}

/// What a [`AccountQuery`] holds, as plain values.
pub struct AccountQueryView {
    pub identifier: Seq<char>,
    pub include_deactivated: Option<bool>,
    pub include_taken_down: Option<bool>,
}

impl DeepView for AccountQuery {
    type V = AccountQueryView;

    open spec fn deep_view(&self) -> AccountQueryView {
        AccountQueryView {
            identifier: self.identifier.deep_view(),
            include_deactivated: self.include_deactivated.deep_view(),
            include_taken_down: self.include_taken_down.deep_view(),
        }
    }
}

impl View for AccountQuery {
    type V = AccountQueryView;

    open spec fn view(&self) -> AccountQueryView {
        self.deep_view()
    }
}

/// What a lookup in the account store gave.
#[derive(Clone, Debug, PartialEq, Eq)]
pub enum AccountLookup {
    Found(Account),
    Absent,
    Failed,
}

/// What a [`AccountLookup`] holds, as plain values.
pub enum AccountLookupView {
    Found(AccountView),
    Absent,
    Failed,
}

impl DeepView for AccountLookup {
    type V = AccountLookupView;

    open spec fn deep_view(&self) -> AccountLookupView {
        match self {
            AccountLookup::Found(inner) => AccountLookupView::Found(inner.deep_view()),
            AccountLookup::Absent => AccountLookupView::Absent,
            AccountLookup::Failed => AccountLookupView::Failed,
        }
    }
}

impl View for AccountLookup {
    type V = AccountLookupView;

    open spec fn view(&self) -> AccountLookupView {
        self.deep_view()
    }
}

/// What the identity resolver gave for a ledger address.
#[derive(Clone, Debug, PartialEq, Eq)]
pub enum Resolution {
    Found(Web5DocumentData),
    /// Among others `CkbDidocCellNotFound`, where the ledger holds no document.
    Failed(ApiError),
}

/// What a [`Resolution`] holds, as plain values.
pub enum ResolutionView {
    Found(Web5DocumentDataView),
    Failed(ApiError),
}

impl DeepView for Resolution {
    type V = ResolutionView;

    open spec fn deep_view(&self) -> ResolutionView {
        match self {
            Resolution::Found(inner) => ResolutionView::Found(inner.deep_view()),
            Resolution::Failed(inner) => ResolutionView::Failed(inner.deep_view()),
        }
    }
}

impl View for Resolution {
    type V = ResolutionView;

    open spec fn view(&self) -> ResolutionView {
        self.deep_view()
    }
}

/// The credentials of a session.
#[derive(Clone, Debug, PartialEq, Eq)]
pub struct Tokens {
    pub access_jwt: String,
    pub refresh_jwt: String,
}

/// What a [`Tokens`] holds, as plain values.
pub struct TokensView {
    pub access_jwt: Seq<char>,
    pub refresh_jwt: Seq<char>,
}

impl DeepView for Tokens {
    type V = TokensView;

    open spec fn deep_view(&self) -> TokensView {
        TokensView {
            access_jwt: self.access_jwt.deep_view(),
            refresh_jwt: self.refresh_jwt.deep_view(),
        }
    }
}

impl View for Tokens {
    type V = TokensView;

    open spec fn view(&self) -> TokensView {
        self.deep_view()
    }
}

/// What the account store gave when asked for a session or an account.
#[derive(Clone, Debug, PartialEq, Eq)]
pub enum SessionOutcome {
    Opened(Tokens),
    Failed,
}

/// What a [`SessionOutcome`] holds, as plain values.
pub enum SessionOutcomeView {
    Opened(TokensView),
    Failed,
}

impl DeepView for SessionOutcome {
    type V = SessionOutcomeView;

    open spec fn deep_view(&self) -> SessionOutcomeView {
        match self {
            SessionOutcome::Opened(inner) => SessionOutcomeView::Opened(inner.deep_view()),
            SessionOutcome::Failed => SessionOutcomeView::Failed,
        }
    }
}

impl View for SessionOutcome {
    type V = SessionOutcomeView;

    open spec fn view(&self) -> SessionOutcomeView {
        self.deep_view()
    }
}

/// What the event log gave when asked to take an event.
#[derive(Clone, Debug, PartialEq, Eq)]
pub enum SequenceOutcome {
    /// The sequence number that the event got.
    Sequenced(u64),
    Failed,
}

/// What a [`SequenceOutcome`] holds, as plain values.
pub enum SequenceOutcomeView {
    Sequenced(u64),
    Failed,
}

impl DeepView for SequenceOutcome {
    type V = SequenceOutcomeView;

    open spec fn deep_view(&self) -> SequenceOutcomeView {
        match self {
            SequenceOutcome::Sequenced(inner) => SequenceOutcomeView::Sequenced(inner.deep_view()),
            SequenceOutcome::Failed => SequenceOutcomeView::Failed,
        }
    }
}

impl View for SequenceOutcome {
    type V = SequenceOutcomeView;

    open spec fn view(&self) -> SequenceOutcomeView {
        self.deep_view()
    }
}

/// Announces the handle of an identity.
#[derive(Clone, Debug, PartialEq, Eq)]
pub struct IdentityEvent {
    pub did: String,
    pub handle: Option<String>,
}

/// What a [`IdentityEvent`] holds, as plain values.
pub struct IdentityEventView {
    pub did: Seq<char>,
    pub handle: Option<Seq<char>>,
}

impl DeepView for IdentityEvent {
    type V = IdentityEventView;

    open spec fn deep_view(&self) -> IdentityEventView {
        IdentityEventView {
            did: self.did.deep_view(),
            handle: self.handle.deep_view(),
        }
    }
}

impl View for IdentityEvent {
    type V = IdentityEventView;

    open spec fn view(&self) -> IdentityEventView {
        self.deep_view()
    }
}

/// Announces how an account stands.
#[derive(Clone, Debug, PartialEq, Eq)]
pub struct AccountEvent {
    pub did: String,
    pub status: AccountStatus,
}

/// What a [`AccountEvent`] holds, as plain values.
pub struct AccountEventView {
    pub did: Seq<char>,
    pub status: AccountStatus,
}

impl DeepView for AccountEvent {
    type V = AccountEventView;

    open spec fn deep_view(&self) -> AccountEventView {
        AccountEventView {
            did: self.did.deep_view(),
            status: self.status.deep_view(),
        }
    }
}

impl View for AccountEvent {
    type V = AccountEventView;

    open spec fn view(&self) -> AccountEventView {
        self.deep_view()
    }
}

/// Announces a commit.
#[derive(Clone, Debug, PartialEq, Eq)]
pub struct CommitEvent {
    pub did: String,
    pub commit: AppliedCommit,
}

/// What a [`CommitEvent`] holds, as plain values.
pub struct CommitEventView {
    pub did: Seq<char>,
    pub commit: AppliedCommitView,
}

impl DeepView for CommitEvent {
    type V = CommitEventView;

    open spec fn deep_view(&self) -> CommitEventView {
        CommitEventView {
            did: self.did.deep_view(),
            commit: self.commit.deep_view(),
        }
    }
}

impl View for CommitEvent {
    type V = CommitEventView;

    open spec fn view(&self) -> CommitEventView {
        self.deep_view()
    }
}

/// Announces the state of a repository as of a commit.
#[derive(Clone, Debug, PartialEq, Eq)]
pub struct SyncEvent {
    pub did: String,
    pub commit: AppliedCommit,
}

/// What a [`SyncEvent`] holds, as plain values.
pub struct SyncEventView {
    pub did: Seq<char>,
    pub commit: AppliedCommitView,
}

impl DeepView for SyncEvent {
    type V = SyncEventView;

    open spec fn deep_view(&self) -> SyncEventView {
        SyncEventView {
            did: self.did.deep_view(),
            commit: self.commit.deep_view(),
        }
    }
}

impl View for SyncEvent {
    type V = SyncEventView;

    open spec fn view(&self) -> SyncEventView {
        self.deep_view()
    }
}

/// An event to be handed to the log.
#[derive(Clone, Debug, PartialEq, Eq)]
pub enum Emission {
    Identity(IdentityEvent),
    Account(AccountEvent),
    Commit(CommitEvent),
    Sync(SyncEvent),
}

/// What a [`Emission`] holds, as plain values.
pub enum EmissionView {
    Identity(IdentityEventView),
    Account(AccountEventView),
    Commit(CommitEventView),
    Sync(SyncEventView),
}

impl DeepView for Emission {
    type V = EmissionView;

    open spec fn deep_view(&self) -> EmissionView {
        match self {
            Emission::Identity(inner) => EmissionView::Identity(inner.deep_view()),
            Emission::Account(inner) => EmissionView::Account(inner.deep_view()),
            Emission::Commit(inner) => EmissionView::Commit(inner.deep_view()),
            Emission::Sync(inner) => EmissionView::Sync(inner.deep_view()),
        }
    }
}

impl View for Emission {
    type V = EmissionView;

    open spec fn view(&self) -> EmissionView {
        self.deep_view()
    }
}

/// Asks the log to drop every event of an identity but the ones listed.
#[derive(Clone, Debug, PartialEq, Eq)]
pub struct Compaction {
    pub did: String,
    pub except: Vec<u64>,
}

/// What a [`Compaction`] holds, as plain values.
pub struct CompactionView {
    pub did: Seq<char>,
    pub except: Seq<u64>,
}

impl DeepView for Compaction {
    type V = CompactionView;

    open spec fn deep_view(&self) -> CompactionView {
        CompactionView {
            did: self.did.deep_view(),
            except: self.except.deep_view(),
        }
    }
}

impl View for Compaction {
    type V = CompactionView;

    open spec fn view(&self) -> CompactionView {
        self.deep_view()
    }
}

/// Tells the account store which commit is now the live commit of a repository.
#[derive(Clone, Debug, PartialEq, Eq)]
pub struct RootUpdate {
    pub did: String,
    pub cid: String,
    pub rev: String,
}

/// What a [`RootUpdate`] holds, as plain values.
pub struct RootUpdateView {
    pub did: Seq<char>,
    pub cid: Seq<char>,
    pub rev: Seq<char>,
}

impl DeepView for RootUpdate {
    type V = RootUpdateView;

    open spec fn deep_view(&self) -> RootUpdateView {
        RootUpdateView {
            did: self.did.deep_view(),
            cid: self.cid.deep_view(),
            rev: self.rev.deep_view(),
        }
    }
}

impl View for RootUpdate {
    type V = RootUpdateView;

    open spec fn view(&self) -> RootUpdateView {
        self.deep_view()
    }
}

impl EmissionView {
    /// The kind of the event.
    pub open spec fn kind(self) -> EventKind {
        match self {
            EmissionView::Identity(_) => EventKind::Identity,
            EmissionView::Account(_) => EventKind::AccountStatus,
            EmissionView::Commit(_) => EventKind::Commit,
            EmissionView::Sync(_) => EventKind::Sync,
        }
    }
}

impl Emission {
    /// The kind of the event.
    pub fn kind(&self) -> (out: EventKind)
        ensures
            out == self@.kind(),
    {
        match self {
            Emission::Identity(_) => EventKind::Identity,
            Emission::Account(_) => EventKind::AccountStatus,
            Emission::Commit(_) => EventKind::Commit,
            Emission::Sync(_) => EventKind::Sync,
        }
    }
}

/// What a run asks of the log.
#[derive(Clone, Copy, Debug, PartialEq, Eq, Structural)]
pub enum LogWork {
    /// Take an event of this kind.
    Announce(EventKind),
    /// Drop the earlier events of an identity.
    Compact,
}

/// What the deletion of an account asks of the log: the account event,
/// then compaction.
pub open spec fn deletion_work() -> Seq<LogWork> {
    seq![LogWork::Announce(EventKind::AccountStatus), LogWork::Compact]
}

/// The order in which the creation of an account is announced.
pub open spec fn creation_order() -> Seq<EventKind> {
    seq![EventKind::Identity, EventKind::AccountStatus, EventKind::Commit, EventKind::Sync]
}

/// The order in which a direct write is announced.
pub open spec fn write_order() -> Seq<EventKind> {
    seq![EventKind::Commit]
}

/// The order in which the deletion of an account is announced.
pub open spec fn deletion_order() -> Seq<EventKind> {
    seq![EventKind::AccountStatus]
}

/// A copy of an applied commit.
pub fn copy_commit(commit: &AppliedCommit) -> (out: AppliedCommit)
    ensures
        out@ == commit@,
{
    let sig = commit.commit.sig.clone();
    assert(sig.deep_view() =~= commit.commit.sig.deep_view());
    AppliedCommit {
        cid: commit.cid.clone(),
        commit: crate::commit::Commit {
            did: commit.commit.did.clone(),
            rev: commit.commit.rev.clone(),
            data: commit.commit.data.clone(),
            prev: match &commit.commit.prev {
                Some(p) => Some(p.clone()),
                None => None,
            },
            version: commit.commit.version,
            sig,
        },
    }
}

/// `str::to_lowercase`: the lower-case form of a text.
#[verifier::external_body]
pub(crate) fn to_lower(s: &str) -> (out: String)
    ensures
        out@ == lowercase(s@),
{
    s.to_lowercase()
}

/// The lower-case form of a text, by the Unicode mapping of characters.
pub uninterp spec fn lowercase(s: Seq<char>) -> Seq<char>;

} // verus!
