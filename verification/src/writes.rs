//! Write preparation: turning the operations of a request into the
//! canonical form that a commit is made from.
//!
//! Whether a record conforms to its schema, and the key of a record that
//! is created without one, are settled outside this library; they come in
//! with each operation as its [`Assessment`].

use crate::content_id::{block_cid, cid_of_block};
use crate::lexicon::{
    DirectWritesInputRefWrite, DirectWritesInputRefWriteView, DirectWritesOutputRefWrite,
    DirectWritesOutputRefWriteView, PreDirectWritesInputRefWrite, PreDirectWritesInputRefWriteView,
    RefWriteCreateResult, RefWriteCreateResultView, RefWriteDeleteResult, RefWriteDeleteResultView,
    RefWriteUpdateResult, RefWriteUpdateResultView,
};
use crate::model::ok_view;
use vstd::prelude::*;

verus! {

/// The most operations that one batch may hold.
pub const MAX_WRITES: usize = 200;

/// What an operation does to a record.
#[derive(Clone, Copy, Debug, PartialEq, Eq, Structural)]
pub enum WriteAction {
    Create,
    Update,
    Delete,
}

impl DeepView for WriteAction {
    type V = WriteAction;

    open spec fn deep_view(&self) -> WriteAction {
        *self
    }
}

/// Why a batch of operations was not prepared.
#[derive(Clone, Copy, Debug, PartialEq, Eq, Structural)]
pub enum PrepareError {
    /// The batch holds more than 200 operations.
    TooManyWrites,
    /// A create or an update carries no record, or one that does not conform
    /// to its schema while validation is asked for.
    RecordInvalid,
    /// An update or a delete names no record key.
    KeyRequired,
}

/// One operation of a request, whatever endpoint it came in by.
#[derive(Clone, Debug, PartialEq, Eq)]
pub struct WriteRequest {
    pub action: WriteAction,
    pub collection: String,
    /// The record key; a create may leave it out.
    pub rkey: Option<String>,
    /// The record in its serialised form; a delete carries none.
    pub record: Option<Vec<u8>>,
}

/// What a [`WriteRequest`] holds, as plain values.
pub struct WriteRequestView {
    pub action: WriteAction,
    pub collection: Seq<char>,
    pub rkey: Option<Seq<char>>,
    pub record: Option<Seq<u8>>,
}

impl DeepView for WriteRequest {
    type V = WriteRequestView;

    open spec fn deep_view(&self) -> WriteRequestView {
        WriteRequestView {
            action: self.action.deep_view(),
            collection: self.collection.deep_view(),
            rkey: self.rkey.deep_view(),
            record: self.record.deep_view(),
        }
    }
}

impl View for WriteRequest {
    type V = WriteRequestView;

    open spec fn view(&self) -> WriteRequestView {
        self.deep_view()
    }
}

/// What was found out about an operation before it is prepared.
#[derive(Clone, Debug, PartialEq, Eq)]
pub struct Assessment {
    /// Whether the record conforms to the schema of its collection.
    pub conforms: bool,
    /// The key that the record gets if it is created without one.
    pub fresh_key: String,
}

/// What a [`Assessment`] holds, as plain values.
pub struct AssessmentView {
    pub conforms: bool,
    pub fresh_key: Seq<char>,
}

impl DeepView for Assessment {
    type V = AssessmentView;

    open spec fn deep_view(&self) -> AssessmentView {
        AssessmentView {
            conforms: self.conforms.deep_view(),
            fresh_key: self.fresh_key.deep_view(),
        }
    }
}

impl View for Assessment {
    type V = AssessmentView;

    open spec fn view(&self) -> AssessmentView {
        self.deep_view()
    }
}

/// An operation together with its assessment.
#[derive(Clone, Debug, PartialEq, Eq)]
pub struct AssessedWrite {
    pub request: WriteRequest,
    pub assessment: Assessment,
}

/// What a [`AssessedWrite`] holds, as plain values.
pub struct AssessedWriteView {
    pub request: WriteRequestView,
    pub assessment: AssessmentView,
}

impl DeepView for AssessedWrite {
    type V = AssessedWriteView;

    open spec fn deep_view(&self) -> AssessedWriteView {
        AssessedWriteView {
            request: self.request.deep_view(),
            assessment: self.assessment.deep_view(),
        }
    }
}

impl View for AssessedWrite {
    type V = AssessedWriteView;

    open spec fn view(&self) -> AssessedWriteView {
        self.deep_view()
    }
}

/// A record that is ready to be written: where it goes, what identifies its
/// content, and the content itself.
#[derive(Clone, Debug, PartialEq, Eq)]
pub struct PreparedRecord {
    pub uri: String,
    pub cid: String,
    pub record: Vec<u8>,
}

/// What a [`PreparedRecord`] holds, as plain values.
pub struct PreparedRecordView {
    pub uri: Seq<char>,
    pub cid: Seq<char>,
    pub record: Seq<u8>,
}

impl DeepView for PreparedRecord {
    type V = PreparedRecordView;

    open spec fn deep_view(&self) -> PreparedRecordView {
        PreparedRecordView {
            uri: self.uri.deep_view(),
            cid: self.cid.deep_view(),
            record: self.record.deep_view(),
        }
    }
}

impl View for PreparedRecord {
    type V = PreparedRecordView;

    open spec fn view(&self) -> PreparedRecordView {
        self.deep_view()
    }
}

/// A record that is ready to be removed.
#[derive(Clone, Debug, PartialEq, Eq)]
pub struct PreparedDelete {
    pub uri: String,
}

/// What a [`PreparedDelete`] holds, as plain values.
pub struct PreparedDeleteView {
    pub uri: Seq<char>,
}

impl DeepView for PreparedDelete {
    type V = PreparedDeleteView;

    open spec fn deep_view(&self) -> PreparedDeleteView {
        PreparedDeleteView {
            uri: self.uri.deep_view(),
        }
    }
}

impl View for PreparedDelete {
    type V = PreparedDeleteView;

    open spec fn view(&self) -> PreparedDeleteView {
        self.deep_view()
    }
}

/// An operation in canonical form.
#[derive(Clone, Debug, PartialEq, Eq)]
pub enum PreparedWrite {
    Create(PreparedRecord),
    Update(PreparedRecord),
    Delete(PreparedDelete),
}

/// What a [`PreparedWrite`] holds, as plain values.
pub enum PreparedWriteView {
    Create(PreparedRecordView),
    Update(PreparedRecordView),
    Delete(PreparedDeleteView),
}

impl DeepView for PreparedWrite {
    type V = PreparedWriteView;

    open spec fn deep_view(&self) -> PreparedWriteView {
        match self {
            PreparedWrite::Create(inner) => PreparedWriteView::Create(inner.deep_view()),
            PreparedWrite::Update(inner) => PreparedWriteView::Update(inner.deep_view()),
            PreparedWrite::Delete(inner) => PreparedWriteView::Delete(inner.deep_view()),
        }
    }
}

impl View for PreparedWrite {
    type V = PreparedWriteView;

    open spec fn view(&self) -> PreparedWriteView {
        self.deep_view()
    }
}

/// The URI of the record with key `rkey` in `collection` of the repository
/// of `did`.
pub open spec fn at_uri(did: Seq<char>, collection: Seq<char>, rkey: Seq<char>) -> Seq<char> {
    "at://"@ + did + "/"@ + collection + "/"@ + rkey
}

/// Whether records are validated: always, unless the request turns it off.
pub open spec fn validation_wanted(validate: Option<bool>) -> bool {
    validate != Some(false)
}

/// The record of a create or an update in canonical form, or why there is
/// none.
pub open spec fn prepared_record(
    did: Seq<char>,
    collection: Seq<char>,
    rkey: Seq<char>,
    record: Option<Seq<u8>>,
    validate: Option<bool>,
    conforms: bool,
) -> Result<PreparedRecordView, PrepareError> {
    match record {
        None => Err(PrepareError::RecordInvalid),
        Some(bytes) => if validation_wanted(validate) && !conforms {
            Err(PrepareError::RecordInvalid)
        } else {
            Ok(PreparedRecordView { uri: at_uri(did, collection, rkey), cid: block_cid(bytes), record: bytes })
        },
    }
}

/// The canonical form of one operation on the repository of `did`, or why
/// it has none. A create takes the key it was given, else the fresh one;
/// an update and a delete must name their key.
pub open spec fn prepared(did: Seq<char>, write: AssessedWriteView, validate: Option<bool>) -> Result<
    PreparedWriteView,
    PrepareError,
> {
    let request = write.request;
    match request.action {
        WriteAction::Create => {
            let rkey = match request.rkey {
                Some(key) => key,
                None => write.assessment.fresh_key,
            };
            match prepared_record(
                did,
                request.collection,
                rkey,
                request.record,
                validate,
                write.assessment.conforms,
            ) {
                Ok(record) => Ok(PreparedWriteView::Create(record)),
                Err(e) => Err(e),
            }
        },
        WriteAction::Update => match request.rkey {
            None => Err(PrepareError::KeyRequired),
            Some(rkey) => match prepared_record(
                did,
                request.collection,
                rkey,
                request.record,
                validate,
                write.assessment.conforms,
            ) {
                Ok(record) => Ok(PreparedWriteView::Update(record)),
                Err(e) => Err(e),
            },
        },
        WriteAction::Delete => match request.rkey {
            None => Err(PrepareError::KeyRequired),
            Some(rkey) => Ok(
                PreparedWriteView::Delete(
                    PreparedDeleteView { uri: at_uri(did, request.collection, rkey) },
                ),
            ),
        },
    }
}

/// The canonical forms of the first `n` operations, in order, or the error
/// of the first among them that has none.
pub open spec fn prepared_upto(
    did: Seq<char>,
    writes: Seq<AssessedWriteView>,
    validate: Option<bool>,
    n: nat,
) -> Result<Seq<PreparedWriteView>, PrepareError>
    decreases n,
{
    if n == 0 {
        Ok(Seq::empty())
    } else {
        match prepared_upto(did, writes, validate, (n - 1) as nat) {
            Err(e) => Err(e),
            Ok(done) => match prepared(did, writes[n - 1], validate) {
                Ok(write) => Ok(done.push(write)),
                Err(e) => Err(e),
            },
        }
    }
}

/// The canonical form of a batch: every operation in order, or nothing. A
/// batch of more than 200 operations is refused before any operation is
/// looked at.
pub open spec fn prepared_batch(
    did: Seq<char>,
    writes: Seq<AssessedWriteView>,
    validate: Option<bool>,
) -> Result<Seq<PreparedWriteView>, PrepareError> {
    if writes.len() > MAX_WRITES {
        Err(PrepareError::TooManyWrites)
    } else {
        prepared_upto(did, writes, validate, writes.len())
    }
}

/// The URI of the record with key `rkey` in `collection` of the repository
/// of `did`.
pub fn make_uri(did: &str, collection: &str, rkey: &str) -> (out: String)
    ensures
        out@ == at_uri(did@, collection@, rkey@),
{
    let mut out = String::from_str("at://");
    out.append(did);
    out.append("/");
    out.append(collection);
    out.append("/");
    out.append(rkey);
    out
}

/// The record of a create or an update in canonical form.
fn prepare_record(
    did: &String,
    collection: &String,
    rkey: &String,
    record: Option<Vec<u8>>,
    validate: Option<bool>,
    conforms: bool,
) -> (out: Result<PreparedRecord, PrepareError>)
    ensures
        ok_view(out) == prepared_record(
            did@,
            collection@,
            rkey@,
            record.deep_view(),
            validate,
            conforms,
        ),
{
    match record {
        None => Err(PrepareError::RecordInvalid),
        Some(bytes) => {
            let wanted = match validate {
                Some(false) => false,
                _ => true,
            };
            if wanted && !conforms {
                Err(PrepareError::RecordInvalid)
            } else {
                let uri = make_uri(did.as_str(), collection.as_str(), rkey.as_str());
                let cid = cid_of_block(&bytes);
                assert(bytes.deep_view() =~= bytes@);
                Ok(PreparedRecord { uri, cid, record: bytes })
            }
        },
    }
}

/// Brings one operation on the repository of `did` into canonical form.
pub fn prepare(did: &String, write: AssessedWrite, validate: Option<bool>) -> (out: Result<
    PreparedWrite,
    PrepareError,
>)
    ensures
        ok_view(out) == prepared(did@, write@, validate),
{
    let AssessedWrite { request, assessment } = write;
    let WriteRequest { action, collection, rkey, record } = request;
    let Assessment { conforms, fresh_key } = assessment;
    match action {
        WriteAction::Create => {
            let key = match rkey {
                Some(key) => key,
                None => fresh_key,
            };
            match prepare_record(did, &collection, &key, record, validate, conforms) {
                Ok(prepared) => Ok(PreparedWrite::Create(prepared)),
                Err(e) => Err(e),
            }
        },
        WriteAction::Update => match rkey {
            None => Err(PrepareError::KeyRequired),
            Some(key) => match prepare_record(did, &collection, &key, record, validate, conforms) {
                Ok(prepared) => Ok(PreparedWrite::Update(prepared)),
                Err(e) => Err(e),
            },
        },
        WriteAction::Delete => match rkey {
            None => Err(PrepareError::KeyRequired),
            Some(key) => Ok(
                PreparedWrite::Delete(
                    PreparedDelete { uri: make_uri(did.as_str(), collection.as_str(), key.as_str()) },
                ),
            ),
        },
    }
}

/// Whether a batch of `count` operations is within the limit.
pub fn within_limit(count: usize) -> (out: bool)
    ensures
        out == (count <= MAX_WRITES),
{
    count <= MAX_WRITES
}

/// Brings a batch of operations on the repository of `did` into canonical
/// form: every operation, in the order given, or none.
pub fn prepare_batch(did: &String, writes: Vec<AssessedWrite>, validate: Option<bool>) -> (out:
    Result<Vec<PreparedWrite>, PrepareError>)
    ensures
        ok_view(out) == prepared_batch(did@, writes.deep_view(), validate),
        writes.len() > MAX_WRITES ==> out == Err::<Vec<PreparedWrite>, PrepareError>(
            PrepareError::TooManyWrites,
        ),
        out matches Ok(done) ==> done.len() == writes.len(),
{
    if !within_limit(writes.len()) {
        return Err(PrepareError::TooManyWrites);
    }
    let ghost all = writes.deep_view();
    let ghost items = writes@;
    let mut out: Vec<PreparedWrite> = Vec::new();
    assert(out.deep_view() =~= Seq::<PreparedWriteView>::empty());
    for write in it: writes.into_iter()
        invariant
            it.seq() == items,
            all == writes.deep_view(),
            all.len() <= MAX_WRITES,
            all.len() == items.len(),
            forall|k: int| 0 <= k < items.len() ==> all[k] == (#[trigger] items[k])@,
            out.len() == it.index(),
            prepared_upto(did@, all, validate, it.index() as nat) == Ok::<
                Seq<PreparedWriteView>,
                PrepareError,
            >(out.deep_view()),
    {
        let ghost i = it.index();
        let ghost before = out.deep_view();
        assert(write@ == all[i as int]);
        match prepare(did, write, validate) {
            Ok(prepared) => {
                out.push(prepared);
                assert(out.deep_view() =~= before.push(prepared@));
            },
            Err(e) => {
                proof {
                    lemma_prepared_upto_fails(did@, all, validate, (i + 1) as nat, all.len());
                }
                return Err(e);
            },
        }
    }
    Ok(out)
}

/// Once a prefix of a batch fails, every longer prefix fails alike.
pub proof fn lemma_prepared_upto_fails(
    did: Seq<char>,
    writes: Seq<AssessedWriteView>,
    validate: Option<bool>,
    n: nat,
    m: nat,
)
    requires
        n <= m,
        prepared_upto(did, writes, validate, n) is Err,
    ensures
        prepared_upto(did, writes, validate, m) == prepared_upto(did, writes, validate, n),
    decreases m,
{
    if n < m {
        lemma_prepared_upto_fails(did, writes, validate, n, (m - 1) as nat);
    }
}

/// A prepared batch holds one canonical form for each operation.
pub proof fn lemma_prepared_upto_len(
    did: Seq<char>,
    writes: Seq<AssessedWriteView>,
    validate: Option<bool>,
    n: nat,
)
    ensures
        prepared_upto(did, writes, validate, n) matches Ok(done) ==> done.len() == n,
    decreases n,
{
    if n > 0 {
        lemma_prepared_upto_len(did, writes, validate, (n - 1) as nat);
    }
}

/// A batch of more than 200 operations is refused whatever it holds, and a
/// batch that is prepared holds at most 200.
pub proof fn lemma_oversized_batch_is_refused(
    did: Seq<char>,
    writes: Seq<AssessedWriteView>,
    validate: Option<bool>,
)
    ensures
        writes.len() > 200 ==> prepared_batch(did, writes, validate) == Err::<
            Seq<PreparedWriteView>,
            PrepareError,
        >(PrepareError::TooManyWrites),
        prepared_batch(did, writes, validate) matches Ok(done) ==> done.len() == writes.len()
            && done.len() <= 200,
{
    lemma_prepared_upto_len(did, writes, validate, writes.len());
}

/// The operation that a write of a batch to be signed asks for.
pub open spec fn request_of_pre_write(write: PreDirectWritesInputRefWriteView) -> WriteRequestView {
    match write {
        PreDirectWritesInputRefWriteView::Create(w) => WriteRequestView {
            action: WriteAction::Create,
            collection: w.collection,
            rkey: w.rkey,
            record: w.value,
        },
        PreDirectWritesInputRefWriteView::Update(w) => WriteRequestView {
            action: WriteAction::Update,
            collection: w.collection,
            rkey: Some(w.rkey),
            record: w.value,
        },
        PreDirectWritesInputRefWriteView::Delete(w) => WriteRequestView {
            action: WriteAction::Delete,
            collection: w.collection,
            rkey: Some(w.rkey),
            record: None,
        },
    }
}

/// The operation that a write of a signed batch asks for.
pub open spec fn request_of_direct_write(write: DirectWritesInputRefWriteView) -> WriteRequestView {
    match write {
        DirectWritesInputRefWriteView::Create(w) => WriteRequestView {
            action: WriteAction::Create,
            collection: w.collection,
            rkey: w.rkey,
            record: w.value,
        },
        DirectWritesInputRefWriteView::Update(w) => WriteRequestView {
            action: WriteAction::Update,
            collection: w.collection,
            rkey: Some(w.rkey),
            record: w.value,
        },
        DirectWritesInputRefWriteView::Delete(w) => WriteRequestView {
            action: WriteAction::Delete,
            collection: w.collection,
            rkey: Some(w.rkey),
            record: None,
        },
    }
}

/// The operation that a write of a batch to be signed asks for.
pub fn pre_write_request(write: PreDirectWritesInputRefWrite) -> (out: WriteRequest)
    ensures
        out@ == request_of_pre_write(write@),
{
    match write {
        PreDirectWritesInputRefWrite::Create(w) => WriteRequest {
            action: WriteAction::Create,
            collection: w.collection,
            rkey: w.rkey,
            record: w.value,
        },
        PreDirectWritesInputRefWrite::Update(w) => WriteRequest {
            action: WriteAction::Update,
            collection: w.collection,
            rkey: Some(w.rkey),
            record: w.value,
        },
        PreDirectWritesInputRefWrite::Delete(w) => WriteRequest {
            action: WriteAction::Delete,
            collection: w.collection,
            rkey: Some(w.rkey),
            record: None,
        },
    }
}

/// The operation that a write of a signed batch asks for.
pub fn direct_write_request(write: DirectWritesInputRefWrite) -> (out: WriteRequest)
    ensures
        out@ == request_of_direct_write(write@),
{
    match write {
        DirectWritesInputRefWrite::Create(w) => WriteRequest {
            action: WriteAction::Create,
            collection: w.collection,
            rkey: w.rkey,
            record: w.value,
        },
        DirectWritesInputRefWrite::Update(w) => WriteRequest {
            action: WriteAction::Update,
            collection: w.collection,
            rkey: Some(w.rkey),
            record: w.value,
        },
        DirectWritesInputRefWrite::Delete(w) => WriteRequest {
            action: WriteAction::Delete,
            collection: w.collection,
            rkey: Some(w.rkey),
            record: None,
        },
    }
}

/// What is reported of the validation of a written record: `valid` where
/// validation was asked for outright, nothing otherwise.
pub open spec fn validation_status(validation: Option<bool>) -> Option<Seq<char>> {
    if validation == Some(true) {
        Some("valid"@)
    } else {
        None
    }
}

/// What is reported of an applied operation.
pub open spec fn output_result(write: PreparedWriteView, validation: Option<bool>) -> DirectWritesOutputRefWriteView {
    match write {
        PreparedWriteView::Create(inner) => DirectWritesOutputRefWriteView::Create(
            RefWriteCreateResultView {
                uri: inner.uri,
                cid: inner.cid,
                validation_status: validation_status(validation),
            },
        ),
        PreparedWriteView::Update(inner) => DirectWritesOutputRefWriteView::Update(
            RefWriteUpdateResultView {
                uri: inner.uri,
                cid: inner.cid,
                validation_status: validation_status(validation),
            },
        ),
        PreparedWriteView::Delete(_) => DirectWritesOutputRefWriteView::Delete(
            RefWriteDeleteResultView {  },
        ),
    }
}

/// What is reported of an applied operation.
pub fn write_to_output_result(write: &PreparedWrite, validation: Option<bool>) -> (out:
    DirectWritesOutputRefWrite)
    ensures
        out@ == output_result(write@, validation),
{
    let validation_status = match validation {
        Some(true) => Some(String::from_str("valid")),
        _ => None,
    };
    match write {
        PreparedWrite::Create(inner) => DirectWritesOutputRefWrite::Create(
            RefWriteCreateResult {
                cid: inner.cid.clone(),
                uri: inner.uri.clone(),
                validation_status,
            },
        ),
        PreparedWrite::Update(inner) => DirectWritesOutputRefWrite::Update(
            RefWriteUpdateResult {
                cid: inner.cid.clone(),
                uri: inner.uri.clone(),
                validation_status,
            },
        ),
        PreparedWrite::Delete(_) => DirectWritesOutputRefWrite::Delete(RefWriteDeleteResult {  }),
    }
}

/// What is reported of each operation of an applied batch, in order.
pub fn output_results(writes: &Vec<PreparedWrite>, validation: Option<bool>) -> (out: Vec<
    DirectWritesOutputRefWrite,
>)
    ensures
        out.deep_view() == Seq::new(
            writes.len() as nat,
            |i: int| output_result(writes.deep_view()[i], validation),
        ),
{
    let mut out: Vec<DirectWritesOutputRefWrite> = Vec::new();
    let mut i: usize = 0;
    while i < writes.len()
        invariant
            i <= writes.len(),
            out.len() == i,
            forall|k: int| 0 <= k < i ==> (#[trigger] out[k])@ == output_result(writes[k]@, validation),
        decreases writes.len() - i,
    {
        out.push(write_to_output_result(&writes[i], validation));
        i += 1;
    }
    assert(out.deep_view() =~= Seq::new(
        writes.len() as nat,
        |i: int| output_result(writes.deep_view()[i], validation),
    ));
    out
}

} // verus!
