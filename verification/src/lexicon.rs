//! The request and response shapes of the externally signed write
//! endpoints, as plain data.
//!
//! Content identifiers and revisions travel as text. A record travels in
//! its serialised form, as bytes; a value that cannot be brought into that
//! form travels as no record, and is refused where records are prepared.

use crate::plc_types::{Web5DocumentData, Web5DocumentDataView};
use vstd::prelude::*;

verus! {

/// Asks for the unsigned first commit of a new account.
#[derive(Clone, Debug, PartialEq, Eq)]
pub struct PreCreateAccountInput {
    pub handle: String,
    pub did: String,
    pub signing_key: Option<String>,
    pub invite_code: Option<String>,
}

/// What a [`PreCreateAccountInput`] holds, as plain values.
pub struct PreCreateAccountInputView {
    pub handle: Seq<char>,
    pub did: Seq<char>,
    pub signing_key: Option<Seq<char>>,
    pub invite_code: Option<Seq<char>>,
}

impl DeepView for PreCreateAccountInput {
    type V = PreCreateAccountInputView;

    open spec fn deep_view(&self) -> PreCreateAccountInputView {
        PreCreateAccountInputView {
            handle: self.handle.deep_view(),
            did: self.did.deep_view(),
            signing_key: self.signing_key.deep_view(),
            invite_code: self.invite_code.deep_view(),
        }
    }
}

impl View for PreCreateAccountInput {
    type V = PreCreateAccountInputView;

    open spec fn view(&self) -> PreCreateAccountInputView {
        self.deep_view()
    }
}

/// The unsigned first commit of a new account, ready to be signed.
#[derive(Clone, Debug, PartialEq, Eq)]
pub struct PreCreateAccountOutput {
    pub did: String,
    pub rev: String,
    pub data: String,
    pub prev: Option<String>,
    pub version: u8,
    pub un_sign_bytes: String,
}

/// What a [`PreCreateAccountOutput`] holds, as plain values.
pub struct PreCreateAccountOutputView {
    pub did: Seq<char>,
    pub rev: Seq<char>,
    pub data: Seq<char>,
    pub prev: Option<Seq<char>>,
    pub version: u8,
    pub un_sign_bytes: Seq<char>,
}

impl DeepView for PreCreateAccountOutput {
    type V = PreCreateAccountOutputView;

    open spec fn deep_view(&self) -> PreCreateAccountOutputView {
        PreCreateAccountOutputView {
            did: self.did.deep_view(),
            rev: self.rev.deep_view(),
            data: self.data.deep_view(),
            prev: self.prev.deep_view(),
            version: self.version.deep_view(),
            un_sign_bytes: self.un_sign_bytes.deep_view(),
        }
    }
}

impl View for PreCreateAccountOutput {
    type V = PreCreateAccountOutputView;

    open spec fn view(&self) -> PreCreateAccountOutputView {
        self.deep_view()
    }
}

/// An unsigned commit as the client echoes it, with the signature that the
/// key holder made over its bytes.
#[derive(Clone, Debug, PartialEq, Eq)]
pub struct SignedRoot {
    pub did: String,
    pub rev: String,
    pub data: String,
    pub prev: Option<String>,
    pub version: u8,
    pub signed_bytes: String,
}

/// What a [`SignedRoot`] holds, as plain values.
pub struct SignedRootView {
    pub did: Seq<char>,
    pub rev: Seq<char>,
    pub data: Seq<char>,
    pub prev: Option<Seq<char>>,
    pub version: u8,
    pub signed_bytes: Seq<char>,
}

impl DeepView for SignedRoot {
    type V = SignedRootView;

    open spec fn deep_view(&self) -> SignedRootView {
        SignedRootView {
            did: self.did.deep_view(),
            rev: self.rev.deep_view(),
            data: self.data.deep_view(),
            prev: self.prev.deep_view(),
            version: self.version.deep_view(),
            signed_bytes: self.signed_bytes.deep_view(),
        }
    }
}

impl View for SignedRoot {
    type V = SignedRootView;

    open spec fn view(&self) -> SignedRootView {
        self.deep_view()
    }
}

/// Creates an account from a signed first commit.
#[derive(Clone, Debug, PartialEq, Eq)]
pub struct CreateAccountInput {
    pub handle: String,
    pub signing_key: String,
    pub password: String,
    pub root: SignedRoot,
    pub ckb_addr: String,
    pub invite_code: Option<String>,
}

/// What a [`CreateAccountInput`] holds, as plain values.
pub struct CreateAccountInputView {
    pub handle: Seq<char>,
    pub signing_key: Seq<char>,
    pub password: Seq<char>,
    pub root: SignedRootView,
    pub ckb_addr: Seq<char>,
    pub invite_code: Option<Seq<char>>,
}

impl DeepView for CreateAccountInput {
    type V = CreateAccountInputView;

    open spec fn deep_view(&self) -> CreateAccountInputView {
        CreateAccountInputView {
            handle: self.handle.deep_view(),
            signing_key: self.signing_key.deep_view(),
            password: self.password.deep_view(),
            root: self.root.deep_view(),
            ckb_addr: self.ckb_addr.deep_view(),
            invite_code: self.invite_code.deep_view(),
        }
    }
}

impl View for CreateAccountInput {
    type V = CreateAccountInputView;

    open spec fn view(&self) -> CreateAccountInputView {
        self.deep_view()
    }
}

/// The session of a newly created account.
#[derive(Clone, Debug, PartialEq, Eq)]
pub struct CreateAccountOutput {
    pub handle: String,
    pub did: String,
    pub did_doc: Option<Web5DocumentData>,
    pub access_jwt: String,
    pub refresh_jwt: String,
}

/// What a [`CreateAccountOutput`] holds, as plain values.
pub struct CreateAccountOutputView {
    pub handle: Seq<char>,
    pub did: Seq<char>,
    pub did_doc: Option<Web5DocumentDataView>,
    pub access_jwt: Seq<char>,
    pub refresh_jwt: Seq<char>,
}

impl DeepView for CreateAccountOutput {
    type V = CreateAccountOutputView;

    open spec fn deep_view(&self) -> CreateAccountOutputView {
        CreateAccountOutputView {
            handle: self.handle.deep_view(),
            did: self.did.deep_view(),
            did_doc: self.did_doc.deep_view(),
            access_jwt: self.access_jwt.deep_view(),
            refresh_jwt: self.refresh_jwt.deep_view(),
        }
    }
}

impl View for CreateAccountOutput {
    type V = CreateAccountOutputView;

    open spec fn view(&self) -> CreateAccountOutputView {
        self.deep_view()
    }
}

/// Operation which creates a new record.
#[derive(Clone, Debug, PartialEq, Eq)]
pub struct RefWriteCreate {
    pub collection: String,
    pub rkey: Option<String>,
    /// The record in its serialised form; `None` where the value that came
    /// in has no such form.
    pub value: Option<Vec<u8>>,
}

/// What a [`RefWriteCreate`] holds, as plain values.
pub struct RefWriteCreateView {
    pub collection: Seq<char>,
    pub rkey: Option<Seq<char>>,
    pub value: Option<Seq<u8>>,
}

impl DeepView for RefWriteCreate {
    type V = RefWriteCreateView;

    open spec fn deep_view(&self) -> RefWriteCreateView {
        RefWriteCreateView {
            collection: self.collection.deep_view(),
            rkey: self.rkey.deep_view(),
            value: self.value.deep_view(),
        }
    }
}

impl View for RefWriteCreate {
    type V = RefWriteCreateView;

    open spec fn view(&self) -> RefWriteCreateView {
        self.deep_view()
    }
}

/// Operation which updates an existing record.
#[derive(Clone, Debug, PartialEq, Eq)]
pub struct RefWriteUpdate {
    pub collection: String,
    pub rkey: String,
    /// The record in its serialised form; `None` where the value that came
    /// in has no such form.
    pub value: Option<Vec<u8>>,
}

/// What a [`RefWriteUpdate`] holds, as plain values.
pub struct RefWriteUpdateView {
    pub collection: Seq<char>,
    pub rkey: Seq<char>,
    pub value: Option<Seq<u8>>,
}

impl DeepView for RefWriteUpdate {
    type V = RefWriteUpdateView;

    open spec fn deep_view(&self) -> RefWriteUpdateView {
        RefWriteUpdateView {
            collection: self.collection.deep_view(),
            rkey: self.rkey.deep_view(),
            value: self.value.deep_view(),
        }
    }
}

impl View for RefWriteUpdate {
    type V = RefWriteUpdateView;

    open spec fn view(&self) -> RefWriteUpdateView {
        self.deep_view()
    }
}

/// Operation which deletes an existing record.
#[derive(Clone, Debug, PartialEq, Eq)]
pub struct RefWriteDelete {
    pub collection: String,
    pub rkey: String,
}

/// What a [`RefWriteDelete`] holds, as plain values.
pub struct RefWriteDeleteView {
    pub collection: Seq<char>,
    pub rkey: Seq<char>,
}

impl DeepView for RefWriteDelete {
    type V = RefWriteDeleteView;

    open spec fn deep_view(&self) -> RefWriteDeleteView {
        RefWriteDeleteView {
            collection: self.collection.deep_view(),
            rkey: self.rkey.deep_view(),
        }
    }
}

impl View for RefWriteDelete {
    type V = RefWriteDeleteView;

    open spec fn view(&self) -> RefWriteDeleteView {
        self.deep_view()
    }
}

/// One operation of a batch whose commit is to be signed.
#[derive(Clone, Debug, PartialEq, Eq)]
pub enum PreDirectWritesInputRefWrite {
    Create(RefWriteCreate),
    Update(RefWriteUpdate),
    Delete(RefWriteDelete),
}

/// What a [`PreDirectWritesInputRefWrite`] holds, as plain values.
pub enum PreDirectWritesInputRefWriteView {
    Create(RefWriteCreateView),
    Update(RefWriteUpdateView),
    Delete(RefWriteDeleteView),
}

impl DeepView for PreDirectWritesInputRefWrite {
    type V = PreDirectWritesInputRefWriteView;

    open spec fn deep_view(&self) -> PreDirectWritesInputRefWriteView {
        match self {
            PreDirectWritesInputRefWrite::Create(inner) => PreDirectWritesInputRefWriteView::Create(inner.deep_view()),
            PreDirectWritesInputRefWrite::Update(inner) => PreDirectWritesInputRefWriteView::Update(inner.deep_view()),
            PreDirectWritesInputRefWrite::Delete(inner) => PreDirectWritesInputRefWriteView::Delete(inner.deep_view()),
        }
    }
}

impl View for PreDirectWritesInputRefWrite {
    type V = PreDirectWritesInputRefWriteView;

    open spec fn view(&self) -> PreDirectWritesInputRefWriteView {
        self.deep_view()
    }
}

/// One operation of a batch whose commit has been signed.
#[derive(Clone, Debug, PartialEq, Eq)]
pub enum DirectWritesInputRefWrite {
    Create(RefWriteCreate),
    Update(RefWriteUpdate),
    Delete(RefWriteDelete),
}

/// What a [`DirectWritesInputRefWrite`] holds, as plain values.
pub enum DirectWritesInputRefWriteView {
    Create(RefWriteCreateView),
    Update(RefWriteUpdateView),
    Delete(RefWriteDeleteView),
}

impl DeepView for DirectWritesInputRefWrite {
    type V = DirectWritesInputRefWriteView;

    open spec fn deep_view(&self) -> DirectWritesInputRefWriteView {
        match self {
            DirectWritesInputRefWrite::Create(inner) => DirectWritesInputRefWriteView::Create(inner.deep_view()),
            DirectWritesInputRefWrite::Update(inner) => DirectWritesInputRefWriteView::Update(inner.deep_view()),
            DirectWritesInputRefWrite::Delete(inner) => DirectWritesInputRefWriteView::Delete(inner.deep_view()),
        }
    }
}

impl View for DirectWritesInputRefWrite {
    type V = DirectWritesInputRefWriteView;

    open spec fn view(&self) -> DirectWritesInputRefWriteView {
        self.deep_view()
    }
}

/// Pre apply a batch transaction of repository creates, updates, and deletes.
#[derive(Clone, Debug, PartialEq, Eq)]
pub struct PreDirectWritesInput {
    /// The handle or DID of the repo (aka, current account).
    pub repo: String,
    /// Can be set to 'false' to skip Lexicon schema validation of record data, for all operations.
    pub validate: Option<bool>,
    pub writes: Vec<PreDirectWritesInputRefWrite>,
    /// Compare and swap with the previous commit by CID.
    pub swap_commit: Option<String>,
}

/// What a [`PreDirectWritesInput`] holds, as plain values.
pub struct PreDirectWritesInputView {
    pub repo: Seq<char>,
    pub validate: Option<bool>,
    pub writes: Seq<PreDirectWritesInputRefWriteView>,
    pub swap_commit: Option<Seq<char>>,
}

impl DeepView for PreDirectWritesInput {
    type V = PreDirectWritesInputView;

    open spec fn deep_view(&self) -> PreDirectWritesInputView {
        PreDirectWritesInputView {
            repo: self.repo.deep_view(),
            validate: self.validate.deep_view(),
            writes: self.writes.deep_view(),
            swap_commit: self.swap_commit.deep_view(),
        }
    }
}

impl View for PreDirectWritesInput {
    type V = PreDirectWritesInputView;

    open spec fn view(&self) -> PreDirectWritesInputView {
        self.deep_view()
    }
}

/// Direct apply a batch transaction of repository creates, updates, and deletes.
#[derive(Clone, Debug, PartialEq, Eq)]
pub struct DirectWritesInput {
    /// The handle or DID of the repo (aka, current account).
    pub repo: String,
    /// Can be set to 'false' to skip Lexicon schema validation of record data, for all operations.
    pub validate: Option<bool>,
    pub writes: Vec<DirectWritesInputRefWrite>,
    /// Compare and swap with the previous commit by CID.
    pub swap_commit: Option<String>,
    /// The key under which the commit was signed.
    pub signing_key: String,
    pub ckb_addr: Option<String>,
    pub root: SignedRoot,
}

/// What a [`DirectWritesInput`] holds, as plain values.
pub struct DirectWritesInputView {
    pub repo: Seq<char>,
    pub validate: Option<bool>,
    pub writes: Seq<DirectWritesInputRefWriteView>,
    pub swap_commit: Option<Seq<char>>,
    pub signing_key: Seq<char>,
    pub ckb_addr: Option<Seq<char>>,
    pub root: SignedRootView,
}

impl DeepView for DirectWritesInput {
    type V = DirectWritesInputView;

    open spec fn deep_view(&self) -> DirectWritesInputView {
        DirectWritesInputView {
            repo: self.repo.deep_view(),
            validate: self.validate.deep_view(),
            writes: self.writes.deep_view(),
            swap_commit: self.swap_commit.deep_view(),
            signing_key: self.signing_key.deep_view(),
            ckb_addr: self.ckb_addr.deep_view(),
            root: self.root.deep_view(),
        }
    }
}

impl View for DirectWritesInput {
    type V = DirectWritesInputView;

    open spec fn view(&self) -> DirectWritesInputView {
        self.deep_view()
    }
}

/// Pre apply writes output
#[derive(Clone, Debug, PartialEq, Eq)]
pub struct PreDirectWritesOutput {
    pub did: String,
    pub rev: String,
    pub data: String,
    pub prev: Option<String>,
    pub version: u8,
    pub un_sign_bytes: String,
}

/// What a [`PreDirectWritesOutput`] holds, as plain values.
pub struct PreDirectWritesOutputView {
    pub did: Seq<char>,
    pub rev: Seq<char>,
    pub data: Seq<char>,
    pub prev: Option<Seq<char>>,
    pub version: u8,
    pub un_sign_bytes: Seq<char>,
}

impl DeepView for PreDirectWritesOutput {
    type V = PreDirectWritesOutputView;

    open spec fn deep_view(&self) -> PreDirectWritesOutputView {
        PreDirectWritesOutputView {
            did: self.did.deep_view(),
            rev: self.rev.deep_view(),
            data: self.data.deep_view(),
            prev: self.prev.deep_view(),
            version: self.version.deep_view(),
            un_sign_bytes: self.un_sign_bytes.deep_view(),
        }
    }
}

impl View for PreDirectWritesOutput {
    type V = PreDirectWritesOutputView;

    open spec fn view(&self) -> PreDirectWritesOutputView {
        self.deep_view()
    }
}

/// Create an authentication session.
#[derive(Clone, Debug, PartialEq, Eq)]
pub struct CreateSessionInput {
    /// Handle or other identifier supported by the server for the authenticating user.
    pub identifier: String,
    pub password: String,
    pub ckb_addr: Option<String>,
}

/// What a [`CreateSessionInput`] holds, as plain values.
pub struct CreateSessionInputView {
    pub identifier: Seq<char>,
    pub password: Seq<char>,
    pub ckb_addr: Option<Seq<char>>,
}

impl DeepView for CreateSessionInput {
    type V = CreateSessionInputView;

    open spec fn deep_view(&self) -> CreateSessionInputView {
        CreateSessionInputView {
            identifier: self.identifier.deep_view(),
            password: self.password.deep_view(),
            ckb_addr: self.ckb_addr.deep_view(),
        }
    }
}

impl View for CreateSessionInput {
    type V = CreateSessionInputView;

    open spec fn view(&self) -> CreateSessionInputView {
        self.deep_view()
    }
}

/// An authentication session.
#[derive(Clone, Debug, PartialEq, Eq)]
pub struct CreateSessionOutput {
    pub access_jwt: String,
    pub refresh_jwt: String,
    pub handle: String,
    pub did: String,
    pub did_doc: Option<String>,
    pub email: Option<String>,
    pub email_confirmed: Option<bool>,
}

/// What a [`CreateSessionOutput`] holds, as plain values.
pub struct CreateSessionOutputView {
    pub access_jwt: Seq<char>,
    pub refresh_jwt: Seq<char>,
    pub handle: Seq<char>,
    pub did: Seq<char>,
    pub did_doc: Option<Seq<char>>,
    pub email: Option<Seq<char>>,
    pub email_confirmed: Option<bool>,
}

impl DeepView for CreateSessionOutput {
    type V = CreateSessionOutputView;

    open spec fn deep_view(&self) -> CreateSessionOutputView {
        CreateSessionOutputView {
            access_jwt: self.access_jwt.deep_view(),
            refresh_jwt: self.refresh_jwt.deep_view(),
            handle: self.handle.deep_view(),
            did: self.did.deep_view(),
            did_doc: self.did_doc.deep_view(),
            email: self.email.deep_view(),
            email_confirmed: self.email_confirmed.deep_view(),
        }
    }
}

impl View for CreateSessionOutput {
    type V = CreateSessionOutputView;

    open spec fn view(&self) -> CreateSessionOutputView {
        self.deep_view()
    }
}

/// The identifier and revision of an applied commit.
#[derive(Clone, Debug, PartialEq, Eq)]
pub struct CommitMeta {
    pub cid: String,
    pub rev: String,
}

/// What a [`CommitMeta`] holds, as plain values.
pub struct CommitMetaView {
    pub cid: Seq<char>,
    pub rev: Seq<char>,
}

impl DeepView for CommitMeta {
    type V = CommitMetaView;

    open spec fn deep_view(&self) -> CommitMetaView {
        CommitMetaView {
            cid: self.cid.deep_view(),
            rev: self.rev.deep_view(),
        }
    }
}

impl View for CommitMeta {
    type V = CommitMetaView;

    open spec fn view(&self) -> CommitMetaView {
        self.deep_view()
    }
}

/// What creating a record gave.
#[derive(Clone, Debug, PartialEq, Eq)]
pub struct RefWriteCreateResult {
    pub uri: String,
    pub cid: String,
    pub validation_status: Option<String>,
}

/// What a [`RefWriteCreateResult`] holds, as plain values.
pub struct RefWriteCreateResultView {
    pub uri: Seq<char>,
    pub cid: Seq<char>,
    pub validation_status: Option<Seq<char>>,
}

impl DeepView for RefWriteCreateResult {
    type V = RefWriteCreateResultView;

    open spec fn deep_view(&self) -> RefWriteCreateResultView {
        RefWriteCreateResultView {
            uri: self.uri.deep_view(),
            cid: self.cid.deep_view(),
            validation_status: self.validation_status.deep_view(),
        }
    }
}

impl View for RefWriteCreateResult {
    type V = RefWriteCreateResultView;

    open spec fn view(&self) -> RefWriteCreateResultView {
        self.deep_view()
    }
}

/// What updating a record gave.
#[derive(Clone, Debug, PartialEq, Eq)]
pub struct RefWriteUpdateResult {
    pub uri: String,
    pub cid: String,
    pub validation_status: Option<String>,
}

/// What a [`RefWriteUpdateResult`] holds, as plain values.
pub struct RefWriteUpdateResultView {
    pub uri: Seq<char>,
    pub cid: Seq<char>,
    pub validation_status: Option<Seq<char>>,
}

impl DeepView for RefWriteUpdateResult {
    type V = RefWriteUpdateResultView;

    open spec fn deep_view(&self) -> RefWriteUpdateResultView {
        RefWriteUpdateResultView {
            uri: self.uri.deep_view(),
            cid: self.cid.deep_view(),
            validation_status: self.validation_status.deep_view(),
        }
    }
}

impl View for RefWriteUpdateResult {
    type V = RefWriteUpdateResultView;

    open spec fn view(&self) -> RefWriteUpdateResultView {
        self.deep_view()
    }
}

/// What deleting a record gave.
#[derive(Clone, Debug, PartialEq, Eq)]
pub struct RefWriteDeleteResult {}

/// What a [`RefWriteDeleteResult`] holds, as plain values.
pub struct RefWriteDeleteResultView {}

impl DeepView for RefWriteDeleteResult {
    type V = RefWriteDeleteResultView;

    open spec fn deep_view(&self) -> RefWriteDeleteResultView {
        RefWriteDeleteResultView {}
    }
}

impl View for RefWriteDeleteResult {
    type V = RefWriteDeleteResultView;

    open spec fn view(&self) -> RefWriteDeleteResultView {
        self.deep_view()
    }
}

/// The result of one operation of an applied batch.
#[derive(Clone, Debug, PartialEq, Eq)]
pub enum DirectWritesOutputRefWrite {
    Create(RefWriteCreateResult),
    Update(RefWriteUpdateResult),
    Delete(RefWriteDeleteResult),
}

/// What a [`DirectWritesOutputRefWrite`] holds, as plain values.
pub enum DirectWritesOutputRefWriteView {
    Create(RefWriteCreateResultView),
    Update(RefWriteUpdateResultView),
    Delete(RefWriteDeleteResultView),
}

impl DeepView for DirectWritesOutputRefWrite {
    type V = DirectWritesOutputRefWriteView;

    open spec fn deep_view(&self) -> DirectWritesOutputRefWriteView {
        match self {
            DirectWritesOutputRefWrite::Create(inner) => DirectWritesOutputRefWriteView::Create(inner.deep_view()),
            DirectWritesOutputRefWrite::Update(inner) => DirectWritesOutputRefWriteView::Update(inner.deep_view()),
            DirectWritesOutputRefWrite::Delete(inner) => DirectWritesOutputRefWriteView::Delete(inner.deep_view()),
        }
    }
}

impl View for DirectWritesOutputRefWrite {
    type V = DirectWritesOutputRefWriteView;

    open spec fn view(&self) -> DirectWritesOutputRefWriteView {
        self.deep_view()
    }
}

/// The applied commit and the result of each operation, in the order given.
#[derive(Clone, Debug, PartialEq, Eq)]
pub struct DirectWritesOutput {
    pub commit: Option<CommitMeta>,
    pub results: Option<Vec<DirectWritesOutputRefWrite>>,
}

/// What a [`DirectWritesOutput`] holds, as plain values.
pub struct DirectWritesOutputView {
    pub commit: Option<CommitMetaView>,
    pub results: Option<Seq<DirectWritesOutputRefWriteView>>,
}

impl DeepView for DirectWritesOutput {
    type V = DirectWritesOutputView;

    open spec fn deep_view(&self) -> DirectWritesOutputView {
        DirectWritesOutputView {
            commit: self.commit.deep_view(),
            results: self.results.deep_view(),
        }
    }
}

impl View for DirectWritesOutput {
    type V = DirectWritesOutputView;

    open spec fn view(&self) -> DirectWritesOutputView {
        self.deep_view()
    }
}

/// Names the action of creating a session.
#[derive(Clone, Debug, PartialEq, Eq)]
pub struct RefCreateSessionIndex {}

/// What a [`RefCreateSessionIndex`] holds, as plain values.
pub struct RefCreateSessionIndexView {}

impl DeepView for RefCreateSessionIndex {
    type V = RefCreateSessionIndexView;

    open spec fn deep_view(&self) -> RefCreateSessionIndexView {
        RefCreateSessionIndexView {}
    }
}

impl View for RefCreateSessionIndex {
    type V = RefCreateSessionIndexView;

    open spec fn view(&self) -> RefCreateSessionIndexView {
        self.deep_view()
    }
}

/// Names the action of deleting the account.
#[derive(Clone, Debug, PartialEq, Eq)]
pub struct RefDeleteAccountIndex {}

/// What a [`RefDeleteAccountIndex`] holds, as plain values.
pub struct RefDeleteAccountIndexView {}

impl DeepView for RefDeleteAccountIndex {
    type V = RefDeleteAccountIndexView;

    open spec fn deep_view(&self) -> RefDeleteAccountIndexView {
        RefDeleteAccountIndexView {}
    }
}

impl View for RefDeleteAccountIndex {
    type V = RefDeleteAccountIndexView;

    open spec fn view(&self) -> RefDeleteAccountIndexView {
        self.deep_view()
    }
}

/// The privileged action for which a challenge is asked.
#[derive(Clone, Debug, PartialEq, Eq)]
pub enum PreIndexActionInputRef {
    CreateSessionIndex(RefCreateSessionIndex),
    DeleteAccountIndex(RefDeleteAccountIndex),
}

/// What a [`PreIndexActionInputRef`] holds, as plain values.
pub enum PreIndexActionInputRefView {
    CreateSessionIndex(RefCreateSessionIndexView),
    DeleteAccountIndex(RefDeleteAccountIndexView),
}

impl DeepView for PreIndexActionInputRef {
    type V = PreIndexActionInputRefView;

    open spec fn deep_view(&self) -> PreIndexActionInputRefView {
        match self {
            PreIndexActionInputRef::CreateSessionIndex(inner) => PreIndexActionInputRefView::CreateSessionIndex(inner.deep_view()),
            PreIndexActionInputRef::DeleteAccountIndex(inner) => PreIndexActionInputRefView::DeleteAccountIndex(inner.deep_view()),
        }
    }
}

impl View for PreIndexActionInputRef {
    type V = PreIndexActionInputRefView;

    open spec fn view(&self) -> PreIndexActionInputRefView {
        self.deep_view()
    }
}

/// The privileged action that a signed challenge authorises.
#[derive(Clone, Debug, PartialEq, Eq)]
pub enum IndexActionInputRef {
    CreateSessionIndex(RefCreateSessionIndex),
    DeleteAccountIndex(RefDeleteAccountIndex),
}

/// What a [`IndexActionInputRef`] holds, as plain values.
pub enum IndexActionInputRefView {
    CreateSessionIndex(RefCreateSessionIndexView),
    DeleteAccountIndex(RefDeleteAccountIndexView),
}

impl DeepView for IndexActionInputRef {
    type V = IndexActionInputRefView;

    open spec fn deep_view(&self) -> IndexActionInputRefView {
        match self {
            IndexActionInputRef::CreateSessionIndex(inner) => IndexActionInputRefView::CreateSessionIndex(inner.deep_view()),
            IndexActionInputRef::DeleteAccountIndex(inner) => IndexActionInputRefView::DeleteAccountIndex(inner.deep_view()),
        }
    }
}

impl View for IndexActionInputRef {
    type V = IndexActionInputRefView;

    open spec fn view(&self) -> IndexActionInputRefView {
        self.deep_view()
    }
}

/// Asks for a challenge to sign.
#[derive(Clone, Debug, PartialEq, Eq)]
pub struct PreIndexActionInput {
    pub did: String,
    pub ckb_addr: Option<String>,
    pub index: PreIndexActionInputRef,
}

/// What a [`PreIndexActionInput`] holds, as plain values.
pub struct PreIndexActionInputView {
    pub did: Seq<char>,
    pub ckb_addr: Option<Seq<char>>,
    pub index: PreIndexActionInputRefView,
}

impl DeepView for PreIndexActionInput {
    type V = PreIndexActionInputView;

    open spec fn deep_view(&self) -> PreIndexActionInputView {
        PreIndexActionInputView {
            did: self.did.deep_view(),
            ckb_addr: self.ckb_addr.deep_view(),
            index: self.index.deep_view(),
        }
    }
}

impl View for PreIndexActionInput {
    type V = PreIndexActionInputView;

    open spec fn view(&self) -> PreIndexActionInputView {
        self.deep_view()
    }
}

/// A challenge to sign.
#[derive(Clone, Debug, PartialEq, Eq)]
pub struct PreIndexActionOutput {
    pub did: String,
    pub handle: String,
    pub message: String,
}

/// What a [`PreIndexActionOutput`] holds, as plain values.
pub struct PreIndexActionOutputView {
    pub did: Seq<char>,
    pub handle: Seq<char>,
    pub message: Seq<char>,
}

impl DeepView for PreIndexActionOutput {
    type V = PreIndexActionOutputView;

    open spec fn deep_view(&self) -> PreIndexActionOutputView {
        PreIndexActionOutputView {
            did: self.did.deep_view(),
            handle: self.handle.deep_view(),
            message: self.message.deep_view(),
        }
    }
}

impl View for PreIndexActionOutput {
    type V = PreIndexActionOutputView;

    open spec fn view(&self) -> PreIndexActionOutputView {
        self.deep_view()
    }
}

/// A signed challenge and the action it authorises.
#[derive(Clone, Debug, PartialEq, Eq)]
pub struct IndexActionInput {
    pub did: String,
    pub message: String,
    pub signing_key: String,
    pub signed_bytes: String,
    pub ckb_addr: Option<String>,
    pub index: IndexActionInputRef,
}

/// What a [`IndexActionInput`] holds, as plain values.
pub struct IndexActionInputView {
    pub did: Seq<char>,
    pub message: Seq<char>,
    pub signing_key: Seq<char>,
    pub signed_bytes: Seq<char>,
    pub ckb_addr: Option<Seq<char>>,
    pub index: IndexActionInputRefView,
}

impl DeepView for IndexActionInput {
    type V = IndexActionInputView;

    open spec fn deep_view(&self) -> IndexActionInputView {
        IndexActionInputView {
            did: self.did.deep_view(),
            message: self.message.deep_view(),
            signing_key: self.signing_key.deep_view(),
            signed_bytes: self.signed_bytes.deep_view(),
            ckb_addr: self.ckb_addr.deep_view(),
            index: self.index.deep_view(),
        }
    }
}

impl View for IndexActionInput {
    type V = IndexActionInputView;

    open spec fn view(&self) -> IndexActionInputView {
        self.deep_view()
    }
}

/// The session that a signed challenge opened.
#[derive(Clone, Debug, PartialEq, Eq)]
pub struct RefCreateSessionResult {
    pub did: String,
    pub did_doc: Option<Web5DocumentData>,
    pub handle: String,
    pub email: Option<String>,
    pub email_confirmed: Option<bool>,
    pub access_jwt: String,
    pub refresh_jwt: String,
}

/// What a [`RefCreateSessionResult`] holds, as plain values.
pub struct RefCreateSessionResultView {
    pub did: Seq<char>,
    pub did_doc: Option<Web5DocumentDataView>,
    pub handle: Seq<char>,
    pub email: Option<Seq<char>>,
    pub email_confirmed: Option<bool>,
    pub access_jwt: Seq<char>,
    pub refresh_jwt: Seq<char>,
}

impl DeepView for RefCreateSessionResult {
    type V = RefCreateSessionResultView;

    open spec fn deep_view(&self) -> RefCreateSessionResultView {
        RefCreateSessionResultView {
            did: self.did.deep_view(),
            did_doc: self.did_doc.deep_view(),
            handle: self.handle.deep_view(),
            email: self.email.deep_view(),
            email_confirmed: self.email_confirmed.deep_view(),
            access_jwt: self.access_jwt.deep_view(),
            refresh_jwt: self.refresh_jwt.deep_view(),
        }
    }
}

impl View for RefCreateSessionResult {
    type V = RefCreateSessionResultView;

    open spec fn view(&self) -> RefCreateSessionResultView {
        self.deep_view()
    }
}

/// An account was deleted.
#[derive(Clone, Debug, PartialEq, Eq)]
pub struct RefDeleteAccountResult {}

/// What a [`RefDeleteAccountResult`] holds, as plain values.
pub struct RefDeleteAccountResultView {}

impl DeepView for RefDeleteAccountResult {
    type V = RefDeleteAccountResultView;

    open spec fn deep_view(&self) -> RefDeleteAccountResultView {
        RefDeleteAccountResultView {}
    }
}

impl View for RefDeleteAccountResult {
    type V = RefDeleteAccountResultView;

    open spec fn view(&self) -> RefDeleteAccountResultView {
        self.deep_view()
    }
}

/// What a privileged action gave.
#[derive(Clone, Debug, PartialEq, Eq)]
pub enum IndexActionOutputRefResult {
    CreateSessionResult(RefCreateSessionResult),
    DeleteAccountResult(RefDeleteAccountResult),
}

/// What a [`IndexActionOutputRefResult`] holds, as plain values.
pub enum IndexActionOutputRefResultView {
    CreateSessionResult(RefCreateSessionResultView),
    DeleteAccountResult(RefDeleteAccountResultView),
}

impl DeepView for IndexActionOutputRefResult {
    type V = IndexActionOutputRefResultView;

    open spec fn deep_view(&self) -> IndexActionOutputRefResultView {
        match self {
            IndexActionOutputRefResult::CreateSessionResult(inner) => IndexActionOutputRefResultView::CreateSessionResult(inner.deep_view()),
            IndexActionOutputRefResult::DeleteAccountResult(inner) => IndexActionOutputRefResultView::DeleteAccountResult(inner.deep_view()),
        }
    }
}

impl View for IndexActionOutputRefResult {
    type V = IndexActionOutputRefResultView;

    open spec fn view(&self) -> IndexActionOutputRefResultView {
        self.deep_view()
    }
}

/// The result of a privileged action.
#[derive(Clone, Debug, PartialEq, Eq)]
pub struct IndexActionOutput {
    pub result: IndexActionOutputRefResult,
}

/// What a [`IndexActionOutput`] holds, as plain values.
pub struct IndexActionOutputView {
    pub result: IndexActionOutputRefResultView,
}

impl DeepView for IndexActionOutput {
    type V = IndexActionOutputView;

    open spec fn deep_view(&self) -> IndexActionOutputView {
        IndexActionOutputView {
            result: self.result.deep_view(),
        }
    }
}

impl View for IndexActionOutput {
    type V = IndexActionOutputView;

    open spec fn view(&self) -> IndexActionOutputView {
        self.deep_view()
    }
}

/// The statement that a challenge for creating a session carries.
pub open spec fn create_session_statement() -> Seq<char> {
    "Create session"@
}

/// The statement that a challenge for deleting an account carries.
pub open spec fn delete_account_statement() -> Seq<char> {
    "Delete account"@
}

impl PreIndexActionInputRefView {
    /// The statement that a challenge for this action carries.
    pub open spec fn statement_text(self) -> Seq<char> {
        match self {
            PreIndexActionInputRefView::CreateSessionIndex(_) => create_session_statement(),
            PreIndexActionInputRefView::DeleteAccountIndex(_) => delete_account_statement(),
        }
    }
}

impl PreIndexActionInputRef {
    /// The statement that a challenge for this action carries.
    pub fn statement(&self) -> (out: String)
        ensures
            out@ == self@.statement_text(),
    {
        match self {
            PreIndexActionInputRef::CreateSessionIndex(_) => String::from_str("Create session"),
            PreIndexActionInputRef::DeleteAccountIndex(_) => String::from_str("Delete account"),
        }
    }

    /// Whether the action deletes the account.
    pub fn is_delete_account(&self) -> (out: bool)
        ensures
            out == (self@ is DeleteAccountIndex),
    {
        match self {
            PreIndexActionInputRef::CreateSessionIndex(_) => false,
            PreIndexActionInputRef::DeleteAccountIndex(_) => true,
        }
    }
}

impl IndexActionInputRefView {
    /// The statement that a signed challenge for this action must carry.
    pub open spec fn statement_text(self) -> Seq<char> {
        match self {
            IndexActionInputRefView::CreateSessionIndex(_) => create_session_statement(),
            IndexActionInputRefView::DeleteAccountIndex(_) => delete_account_statement(),
        }
    }
}

impl IndexActionInputRef {
    /// The statement that a signed challenge for this action must carry.
    pub fn statement(&self) -> (out: String)
        ensures
            out@ == self@.statement_text(),
    {
        match self {
            IndexActionInputRef::CreateSessionIndex(_) => String::from_str("Create session"),
            IndexActionInputRef::DeleteAccountIndex(_) => String::from_str("Delete account"),
        }
    }
}

} // verus!
