//! Resolving a ledger address to its identity document.
//!
//! The address is hashed, an explorer is asked for the cell that refers to
//! the hash, the cell is fetched from a node, and its data is decoded to the
//! document. Hashing, fetching and decoding happen outside this library;
//! here is what lies between: the query that is sent, how the explorer's
//! reply is read, and which error each failure ends in. Every resolution
//! starts afresh; nothing is kept from one to the next.

use crate::collab::Resolution;
use crate::error::{ApiError, CkbFault};
use crate::hexcode::{bytes_to_hex, hex_decoded, hex_encoded, hex_value, is_hex_text};
use crate::plc_types::Web5DocumentData;
use vstd::prelude::*;

verus! {

/// A JSON number, as far as whole numbers go.
#[derive(Clone, Copy, Debug, PartialEq, Eq, Structural)]
pub enum JsonNumber {
    /// A whole number that is not negative.
    Unsigned(u64),
    /// A negative whole number.
    Negative(i64),
    /// A number with a fraction or an exponent.
    Fraction,
}

/// A JSON value. The members of an object stand in the order in which the
/// object lists them; a name is looked up from the front.
#[derive(Debug)]
pub enum Json {
    Null,
    Bool(bool),
    Number(JsonNumber),
    Text(String),
    Array(Vec<Json>),
    Object(Vec<(String, Json)>),
}

/// The station at which a run waits.
#[derive(Clone, Copy, Debug, PartialEq, Eq, Structural)]
pub enum ResolveStep {
    /// The address has been given out to be hashed.
    AwaitHash,
    /// The explorer has been asked for the referring cell.
    AwaitReply,
    /// The node has been asked for the live cell.
    AwaitCell,
    /// The data of the cell has been given out to be decoded.
    AwaitDocument,
}

impl DeepView for ResolveStep {
    type V = ResolveStep;

    open spec fn deep_view(&self) -> ResolveStep {
        *self
    }
}

/// Where a cell lives: the hash of its transaction, 32 bytes, and its index
/// among the outputs.
#[derive(Clone, Debug, PartialEq, Eq)]
pub struct CellRef {
    pub tx_hash: Vec<u8>,
    pub index: u32,
}

/// What a [`CellRef`] holds, as plain values.
pub struct CellRefView {
    pub tx_hash: Seq<u8>,
    pub index: u32,
}

impl DeepView for CellRef {
    type V = CellRefView;

    open spec fn deep_view(&self) -> CellRefView {
        CellRefView {
            tx_hash: self.tx_hash.deep_view(),
            index: self.index.deep_view(),
        }
    }
}

impl View for CellRef {
    type V = CellRefView;

    open spec fn view(&self) -> CellRefView {
        self.deep_view()
    }
}

/// What a run has established so far.
#[derive(Clone, Debug, PartialEq, Eq)]
pub struct ResolveTurnState {
    pub step: ResolveStep,
}

/// What a [`ResolveTurnState`] holds, as plain values.
pub struct ResolveTurnStateView {
    pub step: ResolveStep,
}

impl DeepView for ResolveTurnState {
    type V = ResolveTurnStateView;

    open spec fn deep_view(&self) -> ResolveTurnStateView {
        ResolveTurnStateView {
            step: self.step.deep_view(),
        }
    }
}

impl View for ResolveTurnState {
    type V = ResolveTurnStateView;

    open spec fn view(&self) -> ResolveTurnStateView {
        self.deep_view()
    }
}

/// What hashing the address gave.
#[derive(Clone, Debug, PartialEq, Eq)]
pub enum HashOutcome {
    /// The hash of the lock script of the address.
    Hashed(Vec<u8>),
    /// The text is no address.
    Invalid,
}

/// The body of the explorer's reply: its text, and the JSON value that the
/// text writes, if it writes one.
#[derive(Debug)]
pub struct ReplyBody {
    pub text: String,
    pub json: Option<Json>,
}

/// What asking the explorer gave.
#[derive(Debug)]
pub enum FetchOutcome {
    /// The request could not be sent.
    SendFailed,
    /// The body of the reply could not be read.
    ReadFailed,
    /// The body of the reply.
    Body(ReplyBody),
}

/// What asking the node for a live cell gave.
#[derive(Clone, Debug, PartialEq, Eq)]
pub enum CellOutcome {
    /// The node could not be asked.
    Failed,
    /// The node knows no such live cell.
    NoCell,
    /// The cell carries no data.
    NoData,
    /// The data of the cell.
    Data(Vec<u8>),
}

/// What decoding the data of a cell gave.
#[derive(Clone, Debug, PartialEq, Eq)]
pub enum DecodeOutcome {
    /// The data is no identity record.
    CellInvalid,
    /// The record holds no readable document.
    DocumentInvalid,
    /// The document.
    Document(Web5DocumentData),
}

/// What a collaborator handed back.
#[derive(Debug)]
pub enum ResolveEvent {
    Hash(HashOutcome),
    Reply(FetchOutcome),
    Cell(CellOutcome),
    Decoded(DecodeOutcome),
}

/// What to do next.
#[derive(Clone, Debug, PartialEq, Eq)]
pub enum ResolveAction {
    /// Hash the lock script of the address.
    HashAddress(String),
    /// Get this URL from the explorer.
    Fetch(String),
    /// Ask the node for this live cell, data included.
    GetLiveCell(CellRef),
    /// Decode the data of the cell to the document.
    Decode(Vec<u8>),
    /// The run has ended with this.
    Done(Resolution),
}

/// One turn of a run. A run that has ended has no station to come back to.
#[derive(Clone, Debug, PartialEq, Eq)]
pub struct ResolveTurn {
    pub next: Option<ResolveStep>,
    pub action: ResolveAction,
}

/// The value that the object with the members `entries` holds under
/// `name`: that of the first member so named.
pub open spec fn member(entries: Seq<(String, Json)>, name: Seq<char>) -> Option<Json>
    decreases entries.len(),
{
    if entries.len() == 0 {
        None
    } else if entries[0].0@ == name {
        Some(entries[0].1)
    } else {
        member(entries.skip(1), name)
    }
}

/// The value that `json` holds under `name`, if `json` is an object that
/// holds one.
pub open spec fn field(json: Json, name: Seq<char>) -> Option<Json> {
    match json {
        Json::Object(entries) => member(entries@, name),
        _ => None,
    }
}

/// `text` is 64 hexadecimal digits.
pub open spec fn writes_h256(text: Seq<char>) -> bool {
    vstd::utf8::encode_utf8(text).len() == 64 && is_hex_text(vstd::utf8::encode_utf8(text))
}

/// What the body of the explorer's reply says of the cell that refers to an
/// address: an empty body means that the explorer knows no cell for the
/// address at all, and a body that is no JSON cannot be read.
pub open spec fn referring_cell_of(body: ReplyBody) -> Result<CellRefView, ApiError> {
    if body.text@.len() == 0 {
        Err(ApiError::CkbAddrNoCell)
    } else {
        match body.json {
            None => Err(ApiError::InvalidCkbError(CkbFault::ResponseConvert)),
            Some(reply) => referring_cell(reply),
        }
    }
}

/// The 32 bytes that a transaction hash writes: the first two bytes of the
/// text are set aside, whatever they are, and 64 hexadecimal digits must
/// follow and end the text. A text of fewer than two bytes, or one whose
/// third byte stands in the middle of a character, writes no hash.
pub open spec fn transaction_hash(text: Seq<char>) -> Option<Seq<u8>> {
    let bytes = vstd::utf8::encode_utf8(text);
    if bytes.len() == 66 && is_hex_text(bytes.skip(2)) {
        Some(hex_decoded(bytes.skip(2)))
    } else {
        None
    }
}

/// What the explorer's reply says of the cell that refers to an address:
/// where it lives, or the error that the reply ends in. The reply must be
/// an object whose `data` is an object whose `referring_cells` is an array.
/// An empty array means that the ledger holds no document for the address.
/// Otherwise the first cell must carry a `tx_hash` that writes a transaction
/// hash and a `cell_index` that is a whole number, of which the low 32 bits
/// are taken.
pub open spec fn referring_cell(reply: Json) -> Result<CellRefView, ApiError> {
    match field(reply, "data"@) {
        Some(Json::Object(data)) => match member(data@, "referring_cells"@) {
            Some(Json::Array(cells)) => if cells@.len() == 0 {
                Err(ApiError::CkbDidocCellNotFound)
            } else {
                match field(cells@[0], "tx_hash"@) {
                    Some(Json::Text(tx_hash)) => match field(cells@[0], "cell_index"@) {
                        Some(Json::Number(JsonNumber::Unsigned(index))) => {
                            match transaction_hash(tx_hash@) {
                                None => Err(ApiError::InvalidCkbError(CkbFault::ConvertHash)),
                                Some(hash) => Ok(
                                    CellRefView {
                                        tx_hash: hash,
                                        index: (index % 0x1_0000_0000) as u32,
                                    },
                                ),
                            }
                        },
                        _ => Err(ApiError::InvalidCkbError(CkbFault::ConvertCellIndex)),
                    },
                    _ => Err(ApiError::InvalidCkbError(CkbFault::ConvertTxHash)),
                }
            },
            _ => Err(ApiError::InvalidCkbError(CkbFault::ConvertReferringCells)),
        },
        _ => Err(ApiError::InvalidCkbError(CkbFault::ConvertData)),
    }
}

/// The query that asks the explorer for the first cell that refers to the
/// lock script with the hash `script_hash`.
pub open spec fn referring_cells_query(script_hash: Seq<u8>) -> Seq<char> {
    "http://testnet-api.explorer.nervos.org/api/v2/scripts/referring_cells?code_hash=0x510150477b10d6ab551a509b71265f3164e9fd4137fcb5a4322f49f03092c7c5&hash_type=type&sort=created_time.asc&address_hash="@
        + "0x"@ + hex_encoded(script_hash) + "&restrict=false&page=1&page_size=1"@
}

/// The query that asks the explorer for the first cell that refers to the
/// lock script with the hash `script_hash`.
pub fn make_query(script_hash: &Vec<u8>) -> (out: String)
    ensures
        out@ == referring_cells_query(script_hash@),
{
    let mut out = String::from_str(
        "http://testnet-api.explorer.nervos.org/api/v2/scripts/referring_cells?code_hash=0x510150477b10d6ab551a509b71265f3164e9fd4137fcb5a4322f49f03092c7c5&hash_type=type&sort=created_time.asc&address_hash=",
    );
    out.append("0x");
    let hash = bytes_to_hex(script_hash);
    out.append(hash.as_str());
    out.append("&restrict=false&page=1&page_size=1");
    out
}

/// The value that the object with the members `entries` holds under `name`.
pub fn lookup<'a>(entries: &'a Vec<(String, Json)>, name: &str) -> (out: Option<&'a Json>)
    ensures
        match out {
            Some(value) => member(entries@, name@) == Some(*value),
            None => member(entries@, name@) is None,
        },
{
    let mut i: usize = 0;
    assert(entries@.skip(0) =~= entries@);
    while i < entries.len()
        invariant
            i <= entries.len(),
            member(entries@, name@) == member(entries@.skip(i as int), name@),
        decreases entries.len() - i,
    {
        assert(entries@.skip(i as int)[0] == entries@[i as int]);
        assert(entries@.skip(i as int).skip(1) =~= entries@.skip(i + 1));
        if crate::text::same_text(entries[i].0.as_str(), name) {
            return Some(&entries[i].1);
        }
        i += 1;
    }
    None
}

/// The value that `json` holds under `name`, if `json` is an object that
/// holds one.
pub fn get<'a>(json: &'a Json, name: &str) -> (out: Option<&'a Json>)
    ensures
        match out {
            Some(value) => field(*json, name@) == Some(*value),
            None => field(*json, name@) is None,
        },
{
    match json {
        Json::Object(entries) => lookup(entries, name),
        _ => None,
    }
}

/// `ckb_types::H256::from_str`: the 32 bytes that 64 hexadecimal digits of
/// either case write; any other text is refused.
#[verifier::external_body]
pub(crate) fn read_h256(text: &str) -> (out: Option<Vec<u8>>)
    ensures
        out is Some <==> writes_h256(text@),
        out matches Some(bytes) ==> bytes@ == hex_decoded(vstd::utf8::encode_utf8(text@)),
{
    match <ckb_types::H256 as std::str::FromStr>::from_str(text) {
        Ok(hash) => Some(hash.as_bytes().to_vec()),
        Err(_) => None,
    }
}

/// The 32 bytes that a transaction hash writes.
pub fn read_transaction_hash(text: &str) -> (out: Option<Vec<u8>>)
    ensures
        out.deep_view() == transaction_hash(text@),
{
    let ghost bytes = vstd::utf8::encode_utf8(text@);
    proof {
        vstd::utf8::encode_utf8_valid_utf8(text@);
    }
    if text.len() < 2 {
        return None;
    }
    if !text.is_char_boundary(2) {
        proof {
            if bytes.len() > 2 {
                vstd::utf8::is_char_boundary_iff_not_is_continuation_byte(bytes, 2);
                assert(bytes.skip(2)[0] == bytes[2]);
                assert(hex_value(bytes[2]) is None);
            } else {
                vstd::utf8::is_char_boundary_start_end_of_seq(bytes);
            }
        }
        return None;
    }
    let (_, bare) = text.split_at(2);
    assert(vstd::utf8::encode_utf8(bare@) =~= bytes.skip(2));
    match read_h256(bare) {
        Some(hash) => {
            assert(hash.deep_view() =~= hash@);
            Some(hash)
        },
        None => None,
    }
}

/// The low 32 bits of `n`.
pub fn low_bits(n: u64) -> (out: u32)
    ensures
        out == (n % 0x1_0000_0000) as u32,
{
    (n % 0x1_0000_0000) as u32
}

/// Reads the explorer's reply.
pub fn find_referring_cell(reply: &Json) -> (out: Result<CellRef, ApiError>)
    ensures
        crate::model::ok_view(out) == referring_cell(*reply),
{
    let data = match get(reply, "data") {
        Some(Json::Object(data)) => data,
        _ => {
            return Err(ApiError::InvalidCkbError(CkbFault::ConvertData));
        },
    };
    let cells = match lookup(data, "referring_cells") {
        Some(Json::Array(cells)) => cells,
        _ => {
            return Err(ApiError::InvalidCkbError(CkbFault::ConvertReferringCells));
        },
    };
    if cells.len() == 0 {
        return Err(ApiError::CkbDidocCellNotFound);
    }
    let tx_hash = match get(&cells[0], "tx_hash") {
        Some(Json::Text(tx_hash)) => tx_hash,
        _ => {
            return Err(ApiError::InvalidCkbError(CkbFault::ConvertTxHash));
        },
    };
    let index: u64 = match get(&cells[0], "cell_index") {
        Some(Json::Number(JsonNumber::Unsigned(index))) => *index,
        _ => {
            return Err(ApiError::InvalidCkbError(CkbFault::ConvertCellIndex));
        },
    };
    match read_transaction_hash(tx_hash.as_str()) {
        None => Err(ApiError::InvalidCkbError(CkbFault::ConvertHash)),
        Some(hash) => Ok(CellRef { tx_hash: hash, index: low_bits(index) }),
    }
}

/// Reads the body of the explorer's reply.
pub fn read_reply(body: &ReplyBody) -> (out: Result<CellRef, ApiError>)
    ensures
        crate::model::ok_view(out) == referring_cell_of(*body),
{
    if body.text.as_str().unicode_len() == 0 {
        return Err(ApiError::CkbAddrNoCell);
    }
    match &body.json {
        None => Err(ApiError::InvalidCkbError(CkbFault::ResponseConvert)),
        Some(reply) => find_referring_cell(reply),
    }
}

/// The first turn of a run: the address is given out to be hashed.
pub fn get_didoc_from_chain_start(ckb_addr: &str) -> (out: ResolveTurn)
    ensures
        out.next == Some(ResolveStep::AwaitHash),
        out.action matches ResolveAction::HashAddress(text) && text@ == ckb_addr@,
{
    ResolveTurn {
        next: Some(ResolveStep::AwaitHash),
        action: ResolveAction::HashAddress(String::from_str(ckb_addr)),
    }
}

/// Whether the run goes on after the answer `event` at the station `step`.
pub open spec fn resolve_goes_on(step: ResolveStep, event: ResolveEvent) -> bool {
    match (step, event) {
        (ResolveStep::AwaitHash, ResolveEvent::Hash(HashOutcome::Hashed(_))) => true,
        (ResolveStep::AwaitReply, ResolveEvent::Reply(FetchOutcome::Body(body))) => {
            referring_cell_of(body) is Ok
        },
        (ResolveStep::AwaitCell, ResolveEvent::Cell(CellOutcome::Data(_))) => true,
        _ => false,
    }
}

/// The error that the answer `event` at the station `step` ends the run in,
/// where it does.
pub open spec fn resolve_failure(step: ResolveStep, event: ResolveEvent) -> ApiError {
    match (step, event) {
        (ResolveStep::AwaitHash, ResolveEvent::Hash(HashOutcome::Invalid)) => ApiError::InvalidCkbError(
            CkbFault::AddressFormat,
        ),
        (ResolveStep::AwaitReply, ResolveEvent::Reply(FetchOutcome::SendFailed)) => {
            ApiError::InvalidCkbError(CkbFault::Transport)
        },
        (ResolveStep::AwaitReply, ResolveEvent::Reply(FetchOutcome::ReadFailed)) => {
            ApiError::InvalidCkbError(CkbFault::Response)
        },
        (ResolveStep::AwaitReply, ResolveEvent::Reply(FetchOutcome::Body(body))) => {
            match referring_cell_of(body) {
                Err(e) => e,
                Ok(_) => ApiError::RuntimeError,
            }
        },
        (ResolveStep::AwaitCell, ResolveEvent::Cell(CellOutcome::Failed)) => ApiError::InvalidCkbError(
            CkbFault::LiveCell,
        ),
        (ResolveStep::AwaitCell, ResolveEvent::Cell(CellOutcome::NoCell)) => ApiError::InvalidCkbError(
            CkbFault::CellInfoNotFound,
        ),
        (ResolveStep::AwaitCell, ResolveEvent::Cell(CellOutcome::NoData)) => ApiError::InvalidCkbError(
            CkbFault::CellDataNotFound,
        ),
        (ResolveStep::AwaitDocument, ResolveEvent::Decoded(DecodeOutcome::CellInvalid)) => {
            ApiError::InvalidCkbError(CkbFault::DidDataConvert)
        },
        (ResolveStep::AwaitDocument, ResolveEvent::Decoded(DecodeOutcome::DocumentInvalid)) => {
            ApiError::InvalidCkbError(CkbFault::DocumentDecode)
        },
        (ResolveStep::AwaitDocument, ResolveEvent::Decoded(DecodeOutcome::Document(_))) => {
            ApiError::InvalidCkbError(CkbFault::DocumentDecode)
        },
        _ => ApiError::RuntimeError,
    }
}

/// The turn that follows the answer `event` at the station `step`.
pub fn get_didoc_from_chain_step(step: ResolveStep, event: ResolveEvent) -> (out: ResolveTurn)
    ensures
        match (step, event) {
            (ResolveStep::AwaitHash, ResolveEvent::Hash(HashOutcome::Hashed(hash))) => {
                &&& out.next == Some(ResolveStep::AwaitReply)
                &&& out.action matches ResolveAction::Fetch(url) && url@ == referring_cells_query(
                    hash@,
                )
            },
            (ResolveStep::AwaitReply, ResolveEvent::Reply(FetchOutcome::Body(body))) => {
                match referring_cell_of(body) {
                    Ok(cell) => {
                        &&& out.next == Some(ResolveStep::AwaitCell)
                        &&& out.action matches ResolveAction::GetLiveCell(asked) && asked@ == cell
                    },
                    Err(e) => {
                        &&& out.next is None
                        &&& out.action matches ResolveAction::Done(Resolution::Failed(failure))
                            && failure == e
                    },
                }
            },
            (ResolveStep::AwaitCell, ResolveEvent::Cell(CellOutcome::Data(data))) => {
                &&& out.next == Some(ResolveStep::AwaitDocument)
                &&& out.action matches ResolveAction::Decode(bytes) && bytes@ == data@
            },
            (ResolveStep::AwaitDocument, ResolveEvent::Decoded(DecodeOutcome::Document(doc))) => {
                &&& out.next is None
                &&& if doc.well_formed() {
                    out.action matches ResolveAction::Done(Resolution::Found(found)) && found == doc
                } else {
                    out.action matches ResolveAction::Done(Resolution::Failed(failure)) && failure
                        == resolve_failure(step, event)
                }
            },
            _ => {
                &&& out.next is None
                &&& out.action matches ResolveAction::Done(Resolution::Failed(failure))
                    && failure == resolve_failure(step, event)
            },
        },
        out.action matches ResolveAction::Done(Resolution::Found(found)) ==> found.well_formed(),
{
    let failed = |fault: CkbFault| -> (turn: ResolveTurn)
        ensures
            turn.next is None,
            turn.action matches ResolveAction::Done(Resolution::Failed(failure)) && failure
                == ApiError::InvalidCkbError(fault),
        { ended(ApiError::InvalidCkbError(fault)) };
    match (step, event) {
        (ResolveStep::AwaitHash, ResolveEvent::Hash(HashOutcome::Hashed(hash))) => ResolveTurn {
            next: Some(ResolveStep::AwaitReply),
            action: ResolveAction::Fetch(make_query(&hash)),
        },
        (ResolveStep::AwaitHash, ResolveEvent::Hash(HashOutcome::Invalid)) => failed(
            CkbFault::AddressFormat,
        ),
        (ResolveStep::AwaitReply, ResolveEvent::Reply(FetchOutcome::SendFailed)) => failed(
            CkbFault::Transport,
        ),
        (ResolveStep::AwaitReply, ResolveEvent::Reply(FetchOutcome::ReadFailed)) => failed(
            CkbFault::Response,
        ),
        (ResolveStep::AwaitReply, ResolveEvent::Reply(FetchOutcome::Body(body))) => {
            match read_reply(&body) {
                Ok(cell) => ResolveTurn {
                    next: Some(ResolveStep::AwaitCell),
                    action: ResolveAction::GetLiveCell(cell),
                },
                Err(e) => ended(e),
            }
        },
        (ResolveStep::AwaitCell, ResolveEvent::Cell(CellOutcome::Failed)) => failed(
            CkbFault::LiveCell,
        ),
        (ResolveStep::AwaitCell, ResolveEvent::Cell(CellOutcome::NoCell)) => failed(
            CkbFault::CellInfoNotFound,
        ),
        (ResolveStep::AwaitCell, ResolveEvent::Cell(CellOutcome::NoData)) => failed(
            CkbFault::CellDataNotFound,
        ),
        (ResolveStep::AwaitCell, ResolveEvent::Cell(CellOutcome::Data(data))) => ResolveTurn {
            next: Some(ResolveStep::AwaitDocument),
            action: ResolveAction::Decode(data),
        },
        (ResolveStep::AwaitDocument, ResolveEvent::Decoded(DecodeOutcome::CellInvalid)) => failed(
            CkbFault::DidDataConvert,
        ),
        (ResolveStep::AwaitDocument, ResolveEvent::Decoded(DecodeOutcome::DocumentInvalid)) => {
            failed(CkbFault::DocumentDecode)
        },
        (ResolveStep::AwaitDocument, ResolveEvent::Decoded(DecodeOutcome::Document(doc))) => {
            if doc.is_well_formed() {
                ResolveTurn { next: None, action: ResolveAction::Done(Resolution::Found(doc)) }
            } else {
                failed(CkbFault::DocumentDecode)
            }
        },
        _ => ended(ApiError::RuntimeError),
    }
}

/// The turn that ends a run with an error.
fn ended(e: ApiError) -> (out: ResolveTurn)
    ensures
        out.next is None,
        out.action matches ResolveAction::Done(Resolution::Failed(failure)) && failure == e,
{
    ResolveTurn { next: None, action: ResolveAction::Done(Resolution::Failed(e)) }
}

/// The classes of the errors that a resolution can end in: an address
/// without a document is not found; an address or a reply that cannot be
/// read is malformed; a collaborator that cannot be reached has failed.
pub proof fn lemma_resolution_errors_are_classed()
    ensures
        ApiError::CkbDidocCellNotFound.class_of() == crate::error::ErrorClass::NotFound,
        ApiError::CkbAddrNoCell.class_of() == crate::error::ErrorClass::NotFound,
        ApiError::InvalidCkbError(CkbFault::Transport).class_of()
            == crate::error::ErrorClass::StorageError,
        ApiError::InvalidCkbError(CkbFault::LiveCell).class_of()
            == crate::error::ErrorClass::StorageError,
        forall|fault: CkbFault|
            fault != CkbFault::Transport && fault != CkbFault::Response && fault
                != CkbFault::LiveCell && fault != CkbFault::AlreadyApplied
                ==> #[trigger] ApiError::InvalidCkbError(fault).class_of()
                == crate::error::ErrorClass::Malformed,
{
}

} // verus!
