use web5_pds::collab::Resolution;
use web5_pds::error::{ApiError, CkbFault};
use web5_pds::plc_types::{Service, Web5DocumentData};
use web5_pds::resolver::{
    find_referring_cell, get, get_didoc_from_chain_start, get_didoc_from_chain_step, low_bits,
    lookup, make_query, CellOutcome, CellRef, DecodeOutcome, FetchOutcome, HashOutcome, Json,
    JsonNumber, ReplyBody, ResolveAction, ResolveEvent, ResolveStep,
};
use web5_pds::resolver::read_reply;

fn object(members: Vec<(&str, Json)>) -> Json {
    Json::Object(members.into_iter().map(|(n, v)| (n.to_string(), v)).collect())
}

fn text(s: &str) -> Json {
    Json::Text(s.to_string())
}

fn number(n: u64) -> Json {
    Json::Number(JsonNumber::Unsigned(n))
}

fn reply(cells: Vec<Json>) -> Json {
    object(vec![("data", object(vec![("meta", Json::Null), ("referring_cells", Json::Array(cells))]))])
}

fn cell(tx_hash: Json, index: Json) -> Json {
    object(vec![("capacity", text("1")), ("tx_hash", tx_hash), ("cell_index", index)])
}

fn tx() -> String {
    format!("0x{}", "ab".repeat(32))
}

fn body(json: Option<Json>) -> ReplyBody {
    ReplyBody { text: "{\"data\":{}}".to_string(), json }
}

fn fault(f: CkbFault) -> Result<CellRef, ApiError> {
    Err(ApiError::InvalidCkbError(f))
}

#[test]
fn query_names_the_hash_of_the_lock_script() {
    assert_eq!(
        make_query(&vec![0x00, 0xab, 0xff]),
        "http://testnet-api.explorer.nervos.org/api/v2/scripts/referring_cells?code_hash=0x510150477b10d6ab551a509b71265f3164e9fd4137fcb5a4322f49f03092c7c5&hash_type=type&sort=created_time.asc&address_hash=0x00abff&restrict=false&page=1&page_size=1"
    );
    assert!(make_query(&Vec::new()).contains("&address_hash=0x&restrict=false"));
}

#[test]
fn members_are_looked_up_from_the_front() {
    let entries = vec![
        ("a".to_string(), number(1)),
        ("b".to_string(), number(2)),
        ("a".to_string(), number(3)),
    ];
    assert!(matches!(lookup(&entries, "a"), Some(Json::Number(JsonNumber::Unsigned(1)))));
    assert!(matches!(lookup(&entries, "b"), Some(Json::Number(JsonNumber::Unsigned(2)))));
    assert!(lookup(&entries, "c").is_none());
    assert!(lookup(&entries, "").is_none());
    assert!(get(&Json::Array(Vec::new()), "a").is_none());
    assert!(get(&Json::Null, "a").is_none());
    assert!(matches!(get(&object(vec![("k", Json::Bool(true))]), "k"), Some(Json::Bool(true))));
}

#[test]
fn first_referring_cell_is_read_from_the_reply() {
    let hash: Vec<u8> = (0..32u8).collect();
    let found = find_referring_cell(&reply(vec![
        cell(text(&format!("0x{}", hex::encode(&hash))), number(2)),
        cell(text(&tx()), number(9)),
    ]));
    assert_eq!(found, Ok(CellRef { tx_hash: hash.clone(), index: 2 }));
    assert_eq!(
        find_referring_cell(&reply(vec![cell(text(&format!("0X{}", hex::encode_upper(&hash))), number(0))])),
        Ok(CellRef { tx_hash: hash.clone(), index: 0 })
    );
    assert_eq!(
        find_referring_cell(&reply(vec![cell(text(&format!("zz{}", hex::encode(&hash))), number(u32::MAX as u64))])),
        Ok(CellRef { tx_hash: hash, index: u32::MAX })
    );
}

#[test]
fn cell_index_keeps_its_low_32_bits() {
    assert_eq!(low_bits(0), 0);
    assert_eq!(low_bits(0xffff_ffff), 0xffff_ffff);
    assert_eq!(low_bits(0x1_0000_0000), 0);
    assert_eq!(low_bits(0x1_0000_0007), 7);
    assert_eq!(low_bits(u64::MAX), u32::MAX);
    assert_eq!(
        find_referring_cell(&reply(vec![cell(text(&tx()), number(0x5_0000_0003))])),
        Ok(CellRef { tx_hash: vec![0xab; 32], index: 3 })
    );
}

#[test]
fn address_without_referring_cell_has_no_document() {
    assert_eq!(find_referring_cell(&reply(Vec::new())), Err(ApiError::CkbDidocCellNotFound));
}

#[test]
fn reply_of_another_shape_is_malformed() {
    assert_eq!(find_referring_cell(&Json::Null), fault(CkbFault::ConvertData));
    assert_eq!(find_referring_cell(&Json::Array(Vec::new())), fault(CkbFault::ConvertData));
    assert_eq!(find_referring_cell(&object(Vec::new())), fault(CkbFault::ConvertData));
    assert_eq!(find_referring_cell(&object(vec![("data", text("x"))])), fault(CkbFault::ConvertData));
    assert_eq!(
        find_referring_cell(&object(vec![("data", object(Vec::new()))])),
        fault(CkbFault::ConvertReferringCells)
    );
    assert_eq!(
        find_referring_cell(&object(vec![("data", object(vec![("referring_cells", Json::Null)]))])),
        fault(CkbFault::ConvertReferringCells)
    );
    assert_eq!(
        find_referring_cell(&reply(vec![Json::Null])),
        fault(CkbFault::ConvertTxHash)
    );
    assert_eq!(
        find_referring_cell(&reply(vec![cell(number(5), number(1))])),
        fault(CkbFault::ConvertTxHash)
    );
    for index in [
        text("1"),
        Json::Null,
        Json::Number(JsonNumber::Negative(-1)),
        Json::Number(JsonNumber::Fraction),
    ] {
        assert_eq!(
            find_referring_cell(&reply(vec![cell(text(&tx()), index)])),
            fault(CkbFault::ConvertCellIndex)
        );
    }
    assert_eq!(
        find_referring_cell(&reply(vec![object(vec![("tx_hash", text(&tx()))])])),
        fault(CkbFault::ConvertCellIndex)
    );
    let long = format!("{}ab", tx());
    let odd = tx()[..65].to_string();
    let bare = "ab".repeat(32);
    let wide = format!("0x{}é", "ab".repeat(31));
    let strange = format!("0x{}g", "a".repeat(63));
    for bad in ["", "0", "0x", "0xab", long.as_str(), odd.as_str(), bare.as_str(), wide.as_str(), strange.as_str()] {
        assert_eq!(
            find_referring_cell(&reply(vec![cell(text(bad), number(1))])),
            fault(CkbFault::ConvertHash),
            "{bad:?}"
        );
    }
}

fn document() -> Web5DocumentData {
    Web5DocumentData {
        verification_methods: vec![("atproto".to_string(), "did:key:zAlice".to_string())],
        also_known_as: vec!["at://alice.example".to_string()],
        services: Vec::new(),
    }
}

#[test]
fn resolution_runs_through_all_stations() {
    let turn = get_didoc_from_chain_start("ckt1alice");
    assert_eq!(turn.next, Some(ResolveStep::AwaitHash));
    assert_eq!(turn.action, ResolveAction::HashAddress("ckt1alice".to_string()));
    let turn = get_didoc_from_chain_step(
        ResolveStep::AwaitHash,
        ResolveEvent::Hash(HashOutcome::Hashed(vec![0x12, 0x34])),
    );
    assert_eq!(turn.next, Some(ResolveStep::AwaitReply));
    assert_eq!(turn.action, ResolveAction::Fetch(make_query(&vec![0x12, 0x34])));
    let turn = get_didoc_from_chain_step(
        ResolveStep::AwaitReply,
        ResolveEvent::Reply(FetchOutcome::Body(body(Some(reply(vec![cell(text(&tx()), number(1))]))))),
    );
    assert_eq!(turn.next, Some(ResolveStep::AwaitCell));
    assert_eq!(
        turn.action,
        ResolveAction::GetLiveCell(CellRef { tx_hash: vec![0xab; 32], index: 1 })
    );
    let turn = get_didoc_from_chain_step(
        ResolveStep::AwaitCell,
        ResolveEvent::Cell(CellOutcome::Data(vec![1, 2, 3])),
    );
    assert_eq!(turn.next, Some(ResolveStep::AwaitDocument));
    assert_eq!(turn.action, ResolveAction::Decode(vec![1, 2, 3]));
    let turn = get_didoc_from_chain_step(
        ResolveStep::AwaitDocument,
        ResolveEvent::Decoded(DecodeOutcome::Document(document())),
    );
    assert_eq!(turn.next, None);
    assert_eq!(turn.action, ResolveAction::Done(Resolution::Found(document())));
}

#[test]
fn each_failure_of_a_resolution_has_its_error() {
    let script = vec![
        (ResolveStep::AwaitHash, ResolveEvent::Hash(HashOutcome::Invalid), ApiError::InvalidCkbError(CkbFault::AddressFormat)),
        (ResolveStep::AwaitReply, ResolveEvent::Reply(FetchOutcome::SendFailed), ApiError::InvalidCkbError(CkbFault::Transport)),
        (ResolveStep::AwaitReply, ResolveEvent::Reply(FetchOutcome::ReadFailed), ApiError::InvalidCkbError(CkbFault::Response)),
        (ResolveStep::AwaitReply, ResolveEvent::Reply(FetchOutcome::Body(ReplyBody { text: String::new(), json: None })), ApiError::CkbAddrNoCell),
        (ResolveStep::AwaitReply, ResolveEvent::Reply(FetchOutcome::Body(ReplyBody { text: String::new(), json: Some(reply(Vec::new())) })), ApiError::CkbAddrNoCell),
        (ResolveStep::AwaitReply, ResolveEvent::Reply(FetchOutcome::Body(body(None))), ApiError::InvalidCkbError(CkbFault::ResponseConvert)),
        (ResolveStep::AwaitReply, ResolveEvent::Reply(FetchOutcome::Body(body(Some(reply(Vec::new()))))), ApiError::CkbDidocCellNotFound),
        (ResolveStep::AwaitReply, ResolveEvent::Reply(FetchOutcome::Body(body(Some(Json::Null)))), ApiError::InvalidCkbError(CkbFault::ConvertData)),
        (ResolveStep::AwaitCell, ResolveEvent::Cell(CellOutcome::Failed), ApiError::InvalidCkbError(CkbFault::LiveCell)),
        (ResolveStep::AwaitCell, ResolveEvent::Cell(CellOutcome::NoCell), ApiError::InvalidCkbError(CkbFault::CellInfoNotFound)),
        (ResolveStep::AwaitCell, ResolveEvent::Cell(CellOutcome::NoData), ApiError::InvalidCkbError(CkbFault::CellDataNotFound)),
        (ResolveStep::AwaitDocument, ResolveEvent::Decoded(DecodeOutcome::CellInvalid), ApiError::InvalidCkbError(CkbFault::DidDataConvert)),
        (ResolveStep::AwaitDocument, ResolveEvent::Decoded(DecodeOutcome::DocumentInvalid), ApiError::InvalidCkbError(CkbFault::DocumentDecode)),
        (ResolveStep::AwaitHash, ResolveEvent::Cell(CellOutcome::NoCell), ApiError::RuntimeError),
        (ResolveStep::AwaitDocument, ResolveEvent::Hash(HashOutcome::Hashed(Vec::new())), ApiError::RuntimeError),
    ];
    for (step, event, error) in script {
        let turn = get_didoc_from_chain_step(step, event);
        assert_eq!(turn.next, None);
        assert_eq!(turn.action, ResolveAction::Done(Resolution::Failed(error)));
    }
}

#[test]
fn body_of_the_reply_is_read_text_first() {
    assert_eq!(read_reply(&ReplyBody { text: String::new(), json: None }), Err(ApiError::CkbAddrNoCell));
    assert_eq!(read_reply(&body(None)), fault(CkbFault::ResponseConvert));
    assert_eq!(
        read_reply(&body(Some(reply(vec![cell(text(&tx()), number(4))])))),
        Ok(CellRef { tx_hash: vec![0xab; 32], index: 4 })
    );
    assert_eq!(
        read_reply(&ReplyBody { text: " ".to_string(), json: None }),
        fault(CkbFault::ResponseConvert)
    );
}

#[test]
fn document_that_names_an_entry_twice_is_refused() {
    let mut twice = document();
    twice.verification_methods.push(("atproto".to_string(), "did:key:zOther".to_string()));
    assert!(!twice.is_well_formed());
    assert!(document().is_well_formed());
    let turn = get_didoc_from_chain_step(
        ResolveStep::AwaitDocument,
        ResolveEvent::Decoded(DecodeOutcome::Document(twice)),
    );
    assert_eq!(
        turn.action,
        ResolveAction::Done(Resolution::Failed(ApiError::InvalidCkbError(CkbFault::DocumentDecode)))
    );
    let mut services = document();
    for endpoint in ["https://a.example", "https://b.example"] {
        services.services.push((
            "atproto_pds".to_string(),
            Service { kind: "AtprotoPersonalDataServer".to_string(), endpoint: endpoint.to_string() },
        ));
    }
    assert!(!services.is_well_formed());
    let mut other = document();
    other.verification_methods.push(("second".to_string(), "did:key:zAlice".to_string()));
    assert!(other.is_well_formed());
}

#[test]
fn transaction_hash_is_cut_by_bytes() {
    let digits = "ab".repeat(32);
    let read = |text: String| find_referring_cell(&reply(vec![cell(Json::Text(text), number(1))]));
    let hash = Ok(CellRef { tx_hash: vec![0xab; 32], index: 1 });
    assert_eq!(read(format!("\u{e9}{digits}")), hash);
    assert_eq!(read(format!("0x{digits}")), hash);
    assert_eq!(read(format!("a\u{e9}{digits}")), fault(CkbFault::ConvertHash));
    assert_eq!(read(format!("a\u{e9}{}", &digits[1..])), fault(CkbFault::ConvertHash));
    assert_eq!(read(format!("\u{e9}\u{e9}{digits}")), fault(CkbFault::ConvertHash));
    assert_eq!(read(format!("\u{20ac}{digits}")), fault(CkbFault::ConvertHash));
    assert_eq!(read(format!("\u{20ac}{}", &digits[1..])), fault(CkbFault::ConvertHash));
    assert_eq!(read("\u{e9}".to_string()), fault(CkbFault::ConvertHash));
    assert_eq!(read("a".to_string()), fault(CkbFault::ConvertHash));
    assert_eq!(read("a\u{e9}".to_string()), fault(CkbFault::ConvertHash));
}
