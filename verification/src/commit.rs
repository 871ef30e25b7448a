//! The commit generator: the two steps by which a batch of prepared writes
//! becomes a commit whose signature is made outside the server.
//!
//! First the server says what the next commit would be
//! ([`Repository::generate_unsigned`]); its canonical bytes go to the key
//! holder. When the signature comes back, the server works the same commit
//! out again from the live repository, checks the signature over its bytes
//! and only then lets the writes land ([`Repository::apply_signed`]).
//! Nothing is kept between the two steps.
//!
//! The data root of the repository with the writes laid in, and the
//! canonical bytes of a commit, are worked out by the object store; they
//! come in as arguments.

use crate::content_id::{block_cid, cid_of_block};
use crate::crypto::{
    check_signature, decode_signature, judge, sha256, sha256_digest, signature_bytes,
    verification, CryptoError,
};
use crate::error::ErrorClass;
use crate::lexicon::{SignedRoot, SignedRootView};
use crate::model::ok_view;
use crate::text::{chars_of, comes_before, lemma_text_less_transitive, text_less};
use crate::writes::{PreparedWrite, PreparedWriteView, MAX_WRITES};
use vstd::prelude::*;

verus! {

/// The format version of the commits made here.
pub const COMMIT_VERSION: u8 = 3;

/// Why a commit was not made or not applied.
#[derive(Clone, Copy, Debug, PartialEq, Eq, Structural)]
pub enum CommitError {
    /// The live commit of the repository is not the one the caller expects.
    SwapMismatch,
    /// The batch holds more than 200 writes.
    TooManyWrites,
    /// The revision does not come after the revision of the live commit.
    StaleRevision,
    /// The key or the signature cannot be read.
    Crypto(CryptoError),
    /// The signature is not one over the commit under the signing key.
    SignatureRejected,
    /// The new commit would carry the identifier of the commit it follows.
    IdentifierReused,
}

impl DeepView for CommitError {
    type V = CommitError;

    open spec fn deep_view(&self) -> CommitError {
        *self
    }
}

impl CommitError {
    /// The class of the error.
    pub open spec fn class_of(self) -> ErrorClass {
        match self {
            CommitError::SwapMismatch => ErrorClass::SwapMismatch,
            CommitError::TooManyWrites => ErrorClass::RecordInvalid,
            CommitError::StaleRevision => ErrorClass::Rejected,
            CommitError::Crypto(_) => ErrorClass::CryptoError,
            CommitError::SignatureRejected => ErrorClass::CryptoError,
            CommitError::IdentifierReused => ErrorClass::StorageError,
        }
    }

    /// The class of the error.
    pub fn class(&self) -> (out: ErrorClass)
        ensures
            out == self.class_of(),
    {
        match self {
            CommitError::SwapMismatch => ErrorClass::SwapMismatch,
            CommitError::TooManyWrites => ErrorClass::RecordInvalid,
            CommitError::StaleRevision => ErrorClass::Rejected,
            CommitError::Crypto(_) => ErrorClass::CryptoError,
            CommitError::SignatureRejected => ErrorClass::CryptoError,
            CommitError::IdentifierReused => ErrorClass::StorageError,
        }
    }
}

/// The live commit of a repository: its identifier and its revision.
#[derive(Clone, Debug, PartialEq, Eq)]
pub struct RepoHead {
    pub cid: String,
    pub rev: String,
}

/// What a [`RepoHead`] holds, as plain values.
pub struct RepoHeadView {
    pub cid: Seq<char>,
    pub rev: Seq<char>,
}

impl DeepView for RepoHead {
    type V = RepoHeadView;

    open spec fn deep_view(&self) -> RepoHeadView {
        RepoHeadView {
            cid: self.cid.deep_view(),
            rev: self.rev.deep_view(),
        }
    }
}

impl View for RepoHead {
    type V = RepoHeadView;

    open spec fn view(&self) -> RepoHeadView {
        self.deep_view()
    }
}

/// A commit that waits for its signature. It lives between the two steps only
/// and is never stored.
#[derive(Clone, Debug, PartialEq, Eq)]
pub struct UnsignedCommit {
    pub did: String,
    pub rev: String,
    /// The identifier of the data root.
    pub data: String,
    /// The identifier of the commit that this one follows.
    pub prev: Option<String>,
    pub version: u8,
}

/// What a [`UnsignedCommit`] holds, as plain values.
pub struct UnsignedCommitView {
    pub did: Seq<char>,
    pub rev: Seq<char>,
    pub data: Seq<char>,
    pub prev: Option<Seq<char>>,
    pub version: u8,
}

impl DeepView for UnsignedCommit {
    type V = UnsignedCommitView;

    open spec fn deep_view(&self) -> UnsignedCommitView {
        UnsignedCommitView {
            did: self.did.deep_view(),
            rev: self.rev.deep_view(),
            data: self.data.deep_view(),
            prev: self.prev.deep_view(),
            version: self.version.deep_view(),
        }
    }
}

impl View for UnsignedCommit {
    type V = UnsignedCommitView;

    open spec fn view(&self) -> UnsignedCommitView {
        self.deep_view()
    }
}

/// A signed commit.
#[derive(Clone, Debug, PartialEq, Eq)]
pub struct Commit {
    pub did: String,
    pub rev: String,
    pub data: String,
    pub prev: Option<String>,
    pub version: u8,
    pub sig: Vec<u8>,
}

/// What a [`Commit`] holds, as plain values.
pub struct CommitView {
    pub did: Seq<char>,
    pub rev: Seq<char>,
    pub data: Seq<char>,
    pub prev: Option<Seq<char>>,
    pub version: u8,
    pub sig: Seq<u8>,
}

impl DeepView for Commit {
    type V = CommitView;

    open spec fn deep_view(&self) -> CommitView {
        CommitView {
            did: self.did.deep_view(),
            rev: self.rev.deep_view(),
            data: self.data.deep_view(),
            prev: self.prev.deep_view(),
            version: self.version.deep_view(),
            sig: self.sig.deep_view(),
        }
    }
}

impl View for Commit {
    type V = CommitView;

    open spec fn view(&self) -> CommitView {
        self.deep_view()
    }
}

/// A commit that has been applied, under the identifier of its signed form.
#[derive(Clone, Debug, PartialEq, Eq)]
pub struct AppliedCommit {
    pub cid: String,
    pub commit: Commit,
}

/// What a [`AppliedCommit`] holds, as plain values.
pub struct AppliedCommitView {
    pub cid: Seq<char>,
    pub commit: CommitView,
}

impl DeepView for AppliedCommit {
    type V = AppliedCommitView;

    open spec fn deep_view(&self) -> AppliedCommitView {
        AppliedCommitView {
            cid: self.cid.deep_view(),
            commit: self.commit.deep_view(),
        }
    }
}

impl View for AppliedCommit {
    type V = AppliedCommitView;

    open spec fn view(&self) -> AppliedCommitView {
        self.deep_view()
    }
}

/// The repository of one account: its live commit and every write that has
/// landed, in the order of landing.
#[derive(Clone, Debug, PartialEq, Eq)]
pub struct Repository {
    pub did: String,
    pub head: Option<RepoHead>,
    pub applied: Vec<PreparedWrite>,
}

/// What a [`Repository`] holds, as plain values.
pub struct RepositoryView {
    pub did: Seq<char>,
    pub head: Option<RepoHeadView>,
    pub applied: Seq<PreparedWriteView>,
}

impl DeepView for Repository {
    type V = RepositoryView;

    open spec fn deep_view(&self) -> RepositoryView {
        RepositoryView {
            did: self.did.deep_view(),
            head: self.head.deep_view(),
            applied: self.applied.deep_view(),
        }
    }
}

impl View for Repository {
    type V = RepositoryView;

    open spec fn view(&self) -> RepositoryView {
        self.deep_view()
    }
}

/// The identifier of the live commit, if there is one.
pub open spec fn live_cid(head: Option<RepoHeadView>) -> Option<Seq<char>> {
    match head {
        Some(h) => Some(h.cid),
        None => None,
    }
}

/// Whether `rev` may follow the live commit: any revision may start a
/// repository, and a later one must come after the live revision.
pub open spec fn advances(head: Option<RepoHeadView>, rev: Seq<char>) -> bool {
    match head {
        Some(h) => text_less(h.rev, rev),
        None => true,
    }
}

/// The commit that would follow the live commit of `repo` with `count`
/// writes laid in, or why there is none. A caller who expects a previous
/// commit is refused where the live commit is another.
pub open spec fn unsigned_commit(
    repo: RepositoryView,
    count: nat,
    expected_previous: Option<Seq<char>>,
    data_root: Seq<char>,
    rev: Seq<char>,
) -> Result<UnsignedCommitView, CommitError> {
    if expected_previous is Some && expected_previous != live_cid(repo.head) {
        Err(CommitError::SwapMismatch)
    } else if count > MAX_WRITES {
        Err(CommitError::TooManyWrites)
    } else if !advances(repo.head, rev) {
        Err(CommitError::StaleRevision)
    } else {
        Ok(
            UnsignedCommitView {
                did: repo.did,
                rev: rev,
                data: data_root,
                prev: live_cid(repo.head),
                version: COMMIT_VERSION,
            },
        )
    }
}

/// Whether the live commit is the one that the caller builds on: the
/// previous commit of the signed descriptor, and the expected previous
/// commit where the caller names one.
pub open spec fn swap_holds(
    head: Option<RepoHeadView>,
    expected_previous: Option<Seq<char>>,
    signed_previous: Option<Seq<char>>,
) -> bool {
    (expected_previous is Some ==> expected_previous == live_cid(head)) && signed_previous
        == live_cid(head)
}

/// What checking a signed descriptor against the live repository gives: the
/// commit worked out again and the bytes of its signature, or the first of
/// a swap mismatch, an oversized batch, a stale revision and a signature
/// that cannot be read or does not verify over `unsigned_bytes`.
pub open spec fn checked_signed(
    repo: RepositoryView,
    count: nat,
    expected_previous: Option<Seq<char>>,
    root: SignedRootView,
    signing_key: Seq<char>,
    data_root: Seq<char>,
    unsigned_bytes: Seq<u8>,
) -> Result<(UnsignedCommitView, Seq<u8>), CommitError> {
    if !swap_holds(repo.head, expected_previous, root.prev) {
        Err(CommitError::SwapMismatch)
    } else {
        match unsigned_commit(repo, count, expected_previous, data_root, root.rev) {
            Err(e) => Err(e),
            Ok(unsigned) => match verification(signing_key, sha256(unsigned_bytes), root.signed_bytes) {
                Err(e) => Err(CommitError::Crypto(e)),
                Ok(false) => Err(CommitError::SignatureRejected),
                Ok(true) => Ok((unsigned, signature_bytes(root.signed_bytes))),
            },
        }
    }
}

/// The signed commit made of an unsigned one and a signature.
pub open spec fn signed(unsigned: UnsignedCommitView, sig: Seq<u8>) -> CommitView {
    CommitView {
        did: unsigned.did,
        rev: unsigned.rev,
        data: unsigned.data,
        prev: unsigned.prev,
        version: unsigned.version,
        sig: sig,
    }
}

/// The repository after `writes` have landed under the commit `cid` of
/// revision `rev`.
pub open spec fn advanced(
    repo: RepositoryView,
    writes: Seq<PreparedWriteView>,
    cid: Seq<char>,
    rev: Seq<char>,
) -> RepositoryView {
    RepositoryView {
        did: repo.did,
        head: Some(RepoHeadView { cid: cid, rev: rev }),
        applied: repo.applied + writes,
    }
}

/// What applying a signed batch gives: the repository with every write
/// landed and the commit that now is live, or the reason why nothing
/// changes. The commit takes the identifier of `signed_block`, its signed
/// canonical form.
pub open spec fn applied(
    repo: RepositoryView,
    writes: Seq<PreparedWriteView>,
    expected_previous: Option<Seq<char>>,
    root: SignedRootView,
    signing_key: Seq<char>,
    data_root: Seq<char>,
    unsigned_bytes: Seq<u8>,
    signed_block: Seq<u8>,
) -> Result<(RepositoryView, AppliedCommitView), CommitError> {
    match checked_signed(
        repo,
        writes.len(),
        expected_previous,
        root,
        signing_key,
        data_root,
        unsigned_bytes,
    ) {
        Err(e) => Err(e),
        Ok((unsigned, sig)) => {
            let cid = block_cid(signed_block);
            if live_cid(repo.head) == Some(cid) {
                Err(CommitError::IdentifierReused)
            } else {
                Ok(
                    (
                        advanced(repo, writes, cid, unsigned.rev),
                        AppliedCommitView { cid: cid, commit: signed(unsigned, sig) },
                    ),
                )
            }
        },
    }
}

/// The descriptor that the server signs itself: the commit that follows the
/// live commit, with the signature that the server made over it.
pub open spec fn own_root(
    repo: RepositoryView,
    rev: Seq<char>,
    data_root: Seq<char>,
    signature_hex: Seq<char>,
) -> SignedRootView {
    SignedRootView {
        did: repo.did,
        rev: rev,
        data: data_root,
        prev: live_cid(repo.head),
        version: COMMIT_VERSION,
        signed_bytes: signature_hex,
    }
}

/// Whether two optional texts are the same.
fn same_optional(a: &Option<String>, b: &Option<String>) -> (out: bool)
    ensures
        out == (a.deep_view() == b.deep_view()),
{
    match (a, b) {
        (None, None) => true,
        (Some(x), Some(y)) => *x == *y,
        _ => false,
    }
}

/// What the verifier's answer means for a commit.
pub fn commit_signature_verdict(answer: Result<bool, CryptoError>) -> (out: Result<(), CommitError>)
    ensures
        out == match answer {
            Err(e) => Err::<(), CommitError>(CommitError::Crypto(e)),
            Ok(false) => Err(CommitError::SignatureRejected),
            Ok(true) => Ok(()),
        },
{
    match answer {
        Err(e) => Err(CommitError::Crypto(e)),
        Ok(false) => Err(CommitError::SignatureRejected),
        Ok(true) => Ok(()),
    }
}

impl Repository {
    /// The repository of a new account: no commit, no writes.
    pub fn new(did: String) -> (out: Repository)
        ensures
            out@ == (RepositoryView { did: did@, head: None, applied: Seq::empty() }),
    {
        let out = Repository { did, head: None, applied: Vec::new() };
        assert(out@.applied =~= Seq::empty());
        out
    }

    /// The identifier of the live commit, if there is one.
    pub fn head_cid(&self) -> (out: Option<String>)
        ensures
            out.deep_view() == live_cid(self@.head),
    {
        match &self.head {
            Some(h) => Some(h.cid.clone()),
            None => None,
        }
    }

    /// Whether `rev` may follow the live commit.
    pub fn accepts_revision(&self, rev: &String) -> (out: bool)
        ensures
            out == advances(self@.head, rev@),
    {
        match &self.head {
            Some(h) => comes_before(&chars_of(h.rev.as_str()), &chars_of(rev.as_str())),
            None => true,
        }
    }

    /// The first step: the commit that would follow the live commit with
    /// `writes` laid in, given the data root that they lead to and the
    /// revision it is to carry. The repository is not changed.
    pub fn generate_unsigned(
        &self,
        writes: &Vec<PreparedWrite>,
        expected_previous: &Option<String>,
        data_root: String,
        rev: String,
    ) -> (out: Result<UnsignedCommit, CommitError>)
        ensures
            ok_view(out) == unsigned_commit(
                self@,
                writes.len() as nat,
                expected_previous.deep_view(),
                data_root@,
                rev@,
            ),
    {
        let live = self.head_cid();
        if expected_previous.is_some() && !same_optional(expected_previous, &live) {
            return Err(CommitError::SwapMismatch);
        }
        if writes.len() > MAX_WRITES {
            return Err(CommitError::TooManyWrites);
        }
        if !self.accepts_revision(&rev) {
            return Err(CommitError::StaleRevision);
        }
        Ok(
            UnsignedCommit {
                did: self.did.clone(),
                rev,
                data: data_root,
                prev: live,
                version: COMMIT_VERSION,
            },
        )
    }

    /// Checks a signed descriptor against the live repository, without
    /// changing anything: the compare-and-swap on the previous commit, the
    /// commit worked out again for the revision that was signed, and the
    /// signature over `unsigned_bytes`, the canonical bytes of that commit.
    pub fn check_signed(
        &self,
        writes: &Vec<PreparedWrite>,
        expected_previous: &Option<String>,
        root: &SignedRoot,
        signing_key: &String,
        data_root: String,
        unsigned_bytes: &Vec<u8>,
    ) -> (out: Result<(UnsignedCommit, Vec<u8>), CommitError>)
        ensures
            match out {
                Ok((unsigned, sig)) => Ok::<(UnsignedCommitView, Seq<u8>), CommitError>(
                    (unsigned@, sig@),
                ),
                Err(e) => Err(e),
            } == checked_signed(
                self@,
                writes.len() as nat,
                expected_previous.deep_view(),
                root@,
                signing_key@,
                data_root@,
                unsigned_bytes@,
            ),
    {
        let live = self.head_cid();
        if expected_previous.is_some() && !same_optional(expected_previous, &live) {
            return Err(CommitError::SwapMismatch);
        }
        if !same_optional(&root.prev, &live) {
            return Err(CommitError::SwapMismatch);
        }
        let unsigned = match self.generate_unsigned(
            writes,
            expected_previous,
            data_root,
            root.rev.clone(),
        ) {
            Ok(unsigned) => unsigned,
            Err(e) => {
                return Err(e);
            },
        };
        let digest = sha256_digest(unsigned_bytes.as_slice());
        match decode_signature(root.signed_bytes.as_str()) {
            None => Err(CommitError::Crypto(CryptoError::SignatureEncoding)),
            Some(sig) => {
                let answer = judge(check_signature(signing_key, digest.as_slice(), sig.as_slice()));
                match commit_signature_verdict(answer) {
                    Err(e) => Err(e),
                    Ok(()) => Ok((unsigned, sig)),
                }
            },
        }
    }

    /// The second step: applies a signed batch. Either every write lands and
    /// the commit of `signed_block` becomes the live commit, or the
    /// repository stays as it was.
    pub fn apply_signed(
        &mut self,
        writes: Vec<PreparedWrite>,
        expected_previous: &Option<String>,
        root: &SignedRoot,
        signing_key: &String,
        data_root: String,
        unsigned_bytes: &Vec<u8>,
        signed_block: &Vec<u8>,
    ) -> (out: Result<AppliedCommit, CommitError>)
        ensures
            match applied(
                old(self)@,
                writes.deep_view(),
                expected_previous.deep_view(),
                root@,
                signing_key@,
                data_root@,
                unsigned_bytes@,
                signed_block@,
            ) {
                Ok((state, commit)) => final(self)@ == state && ok_view(out) == Ok::<
                    AppliedCommitView,
                    CommitError,
                >(commit),
                Err(e) => final(self)@ == old(self)@ && ok_view(out) == Err::<
                    AppliedCommitView,
                    CommitError,
                >(e),
            },
    {
        let (unsigned, sig) = match self.check_signed(
            &writes,
            expected_previous,
            root,
            signing_key,
            data_root,
            unsigned_bytes,
        ) {
            Ok(checked) => checked,
            Err(e) => {
                return Err(e);
            },
        };
        let cid = cid_of_block(signed_block);
        let live = self.head_cid();
        if same_optional(&live, &Some(cid.clone())) {
            return Err(CommitError::IdentifierReused);
        }
        let ghost before = self.applied.deep_view();
        let ghost landing = writes.deep_view();
        let mut writes = writes;
        self.applied.append(&mut writes);
        assert(self.applied.deep_view() =~= before + landing);
        self.head = Some(RepoHead { cid: cid.clone(), rev: unsigned.rev.clone() });
        assert(sig.deep_view() =~= sig@);
        Ok(
            AppliedCommit {
                cid,
                commit: Commit {
                    did: unsigned.did,
                    rev: unsigned.rev,
                    data: unsigned.data,
                    prev: unsigned.prev,
                    version: unsigned.version,
                    sig,
                },
            },
        )
    }
}

impl Repository {
    /// What applying a signed batch would give, without applying it: the
    /// commit that would become live, or the reason why nothing would
    /// change. Whoever stores the blocks of a batch asks this first and
    /// stores them only where the batch is going to land.
    pub fn preview_signed(
        &self,
        writes: &Vec<PreparedWrite>,
        expected_previous: &Option<String>,
        root: &SignedRoot,
        signing_key: &String,
        data_root: String,
        unsigned_bytes: &Vec<u8>,
        signed_block: &Vec<u8>,
    ) -> (out: Result<AppliedCommit, CommitError>)
        ensures
            match applied(
                self@,
                writes.deep_view(),
                expected_previous.deep_view(),
                root@,
                signing_key@,
                data_root@,
                unsigned_bytes@,
                signed_block@,
            ) {
                Ok((_, commit)) => ok_view(out) == Ok::<AppliedCommitView, CommitError>(commit),
                Err(e) => ok_view(out) == Err::<AppliedCommitView, CommitError>(e),
            },
    {
        assert(writes.deep_view().len() == writes.len());
        let (unsigned, sig) = match self.check_signed(
            writes,
            expected_previous,
            root,
            signing_key,
            data_root,
            unsigned_bytes,
        ) {
            Ok(checked) => checked,
            Err(e) => {
                return Err(e);
            },
        };
        let cid = cid_of_block(signed_block);
        let live = self.head_cid();
        if same_optional(&live, &Some(cid.clone())) {
            return Err(CommitError::IdentifierReused);
        }
        assert(sig.deep_view() =~= sig@);
        Ok(
            AppliedCommit {
                cid,
                commit: Commit {
                    did: unsigned.did,
                    rev: unsigned.rev,
                    data: unsigned.data,
                    prev: unsigned.prev,
                    version: unsigned.version,
                    sig,
                },
            },
        )
    }

    /// Both steps in one, for an account whose key the server holds itself:
    /// the commit that follows the live commit is made for `rev`, the
    /// signature that the server made over its canonical bytes is checked,
    /// and the batch is applied. No descriptor leaves the server.
    pub fn apply_own(
        &mut self,
        writes: Vec<PreparedWrite>,
        expected_previous: &Option<String>,
        data_root: String,
        rev: String,
        signing_key: &String,
        signature_hex: String,
        unsigned_bytes: &Vec<u8>,
        signed_block: &Vec<u8>,
    ) -> (out: Result<AppliedCommit, CommitError>)
        ensures
            match applied(
                old(self)@,
                writes.deep_view(),
                expected_previous.deep_view(),
                own_root(old(self)@, rev@, data_root@, signature_hex@),
                signing_key@,
                data_root@,
                unsigned_bytes@,
                signed_block@,
            ) {
                Ok((state, commit)) => final(self)@ == state && ok_view(out) == Ok::<
                    AppliedCommitView,
                    CommitError,
                >(commit),
                Err(e) => final(self)@ == old(self)@ && ok_view(out) == Err::<
                    AppliedCommitView,
                    CommitError,
                >(e),
            },
    {
        let root = SignedRoot {
            did: self.did.clone(),
            rev,
            data: data_root.clone(),
            prev: self.head_cid(),
            version: COMMIT_VERSION,
            signed_bytes: signature_hex,
        };
        self.apply_signed(
            writes,
            expected_previous,
            &root,
            signing_key,
            data_root,
            unsigned_bytes,
            signed_block,
        )
    }
}

/// With its own key the server is never stale: a swap mismatch comes only
/// from the previous commit that the caller expects.
pub proof fn lemma_own_commit_swaps_on_expectation_only(
    repo: RepositoryView,
    expected_previous: Option<Seq<char>>,
    rev: Seq<char>,
    data_root: Seq<char>,
    signature_hex: Seq<char>,
)
    ensures
        swap_holds(
            repo.head,
            expected_previous,
            own_root(repo, rev, data_root, signature_hex).prev,
        ) <==> (expected_previous is Some ==> expected_previous == live_cid(repo.head)),
{
}

/// Applying a signed batch lands every write and advances the revision
/// once, or changes nothing: where it succeeds, the writes that have landed
/// are the earlier ones followed by the whole batch in order, the batch
/// holds at most 200 writes, and the live commit carries the signed
/// revision, which comes after the one before.
pub proof fn lemma_apply_lands_all_and_advances_once(
    repo: RepositoryView,
    writes: Seq<PreparedWriteView>,
    expected_previous: Option<Seq<char>>,
    root: SignedRootView,
    signing_key: Seq<char>,
    data_root: Seq<char>,
    unsigned_bytes: Seq<u8>,
    signed_block: Seq<u8>,
)
    ensures
        applied(
            repo,
            writes,
            expected_previous,
            root,
            signing_key,
            data_root,
            unsigned_bytes,
            signed_block,
        ) matches Ok((state, commit)) ==> {
            &&& writes.len() <= 200
            &&& state.did == repo.did
            &&& state.applied == repo.applied + writes
            &&& state.head == Some(RepoHeadView { cid: commit.cid, rev: root.rev })
            &&& commit.commit.rev == root.rev
            &&& commit.commit.prev == live_cid(repo.head)
            &&& advances(repo.head, root.rev)
            &&& live_cid(state.head) != live_cid(repo.head)
        },
{
}

/// The first step depends on its inputs alone: the same repository, number
/// of writes, expected previous commit, data root and revision give the
/// same commit, field for field.
pub proof fn lemma_generate_unsigned_is_deterministic(
    repo: RepositoryView,
    count: nat,
    expected_previous: Option<Seq<char>>,
    data_root: Seq<char>,
    rev: Seq<char>,
    first: Result<UnsignedCommitView, CommitError>,
    second: Result<UnsignedCommitView, CommitError>,
)
    requires
        first == unsigned_commit(repo, count, expected_previous, data_root, rev),
        second == unsigned_commit(repo, count, expected_previous, data_root, rev),
    ensures
        first == second,
        first matches Ok(c) ==> c.did == repo.did && c.rev == rev && c.data == data_root && c.prev
            == live_cid(repo.head) && c.version == 3,
{
}

/// A swap mismatch is reported exactly when the live commit is not the one
/// that the caller builds on.
pub proof fn lemma_swap_mismatch_iff_expectation_fails(
    repo: RepositoryView,
    writes: Seq<PreparedWriteView>,
    expected_previous: Option<Seq<char>>,
    root: SignedRootView,
    signing_key: Seq<char>,
    data_root: Seq<char>,
    unsigned_bytes: Seq<u8>,
    signed_block: Seq<u8>,
)
    ensures
        applied(
            repo,
            writes,
            expected_previous,
            root,
            signing_key,
            data_root,
            unsigned_bytes,
            signed_block,
        ) == Err::<(RepositoryView, AppliedCommitView), CommitError>(CommitError::SwapMismatch)
            <==> !swap_holds(repo.head, expected_previous, root.prev),
        unsigned_commit(repo, writes.len(), expected_previous, data_root, root.rev) == Err::<
            UnsignedCommitView,
            CommitError,
        >(CommitError::SwapMismatch) <==> (expected_previous is Some && expected_previous
            != live_cid(repo.head)),
{
}

/// Of two batches that both build on the same previous commit, the second
/// to arrive is refused with a swap mismatch once the first has landed.
pub proof fn lemma_second_writer_is_refused(
    repo: RepositoryView,
    previous: Seq<char>,
    first_writes: Seq<PreparedWriteView>,
    first_root: SignedRootView,
    first_key: Seq<char>,
    first_data_root: Seq<char>,
    first_unsigned: Seq<u8>,
    first_block: Seq<u8>,
    second_writes: Seq<PreparedWriteView>,
    second_root: SignedRootView,
    second_key: Seq<char>,
    second_data_root: Seq<char>,
    second_unsigned: Seq<u8>,
    second_block: Seq<u8>,
)
    requires
        applied(
            repo,
            first_writes,
            Some(previous),
            first_root,
            first_key,
            first_data_root,
            first_unsigned,
            first_block,
        ) is Ok,
    ensures
        applied(
            applied(
                repo,
                first_writes,
                Some(previous),
                first_root,
                first_key,
                first_data_root,
                first_unsigned,
                first_block,
            )->Ok_0.0,
            second_writes,
            Some(previous),
            second_root,
            second_key,
            second_data_root,
            second_unsigned,
            second_block,
        ) == Err::<(RepositoryView, AppliedCommitView), CommitError>(CommitError::SwapMismatch),
{
}

/// Revisions only grow: after two batches have landed one after the other,
/// the live revision comes after the revision that was live before the
/// first, and the writes of both have landed in the order of landing.
pub proof fn lemma_revisions_only_grow(
    repo: RepositoryView,
    first_writes: Seq<PreparedWriteView>,
    first_expected: Option<Seq<char>>,
    first_root: SignedRootView,
    first_key: Seq<char>,
    first_data_root: Seq<char>,
    first_unsigned: Seq<u8>,
    first_block: Seq<u8>,
    second_writes: Seq<PreparedWriteView>,
    second_expected: Option<Seq<char>>,
    second_root: SignedRootView,
    second_key: Seq<char>,
    second_data_root: Seq<char>,
    second_unsigned: Seq<u8>,
    second_block: Seq<u8>,
)
    requires
        repo.head is Some,
        applied(
            repo,
            first_writes,
            first_expected,
            first_root,
            first_key,
            first_data_root,
            first_unsigned,
            first_block,
        ) is Ok,
        applied(
            applied(
                repo,
                first_writes,
                first_expected,
                first_root,
                first_key,
                first_data_root,
                first_unsigned,
                first_block,
            )->Ok_0.0,
            second_writes,
            second_expected,
            second_root,
            second_key,
            second_data_root,
            second_unsigned,
            second_block,
        ) is Ok,
    ensures
        text_less(repo.head->0.rev, first_root.rev),
        text_less(first_root.rev, second_root.rev),
        text_less(repo.head->0.rev, second_root.rev),
        applied(
            applied(
                repo,
                first_writes,
                first_expected,
                first_root,
                first_key,
                first_data_root,
                first_unsigned,
                first_block,
            )->Ok_0.0,
            second_writes,
            second_expected,
            second_root,
            second_key,
            second_data_root,
            second_unsigned,
            second_block,
        )->Ok_0.0.applied == repo.applied + first_writes + second_writes,
{
    lemma_text_less_transitive(repo.head->0.rev, first_root.rev, second_root.rev);
}

} // verus!
