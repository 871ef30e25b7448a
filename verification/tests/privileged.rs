use web5_pds::challenge::{challenge_message, ChallengeError};
use web5_pds::collab::{
    Account, AccountEvent, AccountLookup, AccountQuery, AccountStatus, Compaction, Emission,
    Outcome, Resolution, SequenceOutcome, SessionOutcome, Tokens,
};
use web5_pds::crypto::{digest_message, CryptoError};
use web5_pds::error::{ApiError, CkbFault, RequestFault};
use web5_pds::index_action::{
    index_action_start, index_action_step, index_action_step_at, IndexAction,
    IndexEvent, IndexStep, IndexTurn,
};
use web5_pds::lexicon::{
    IndexActionInput, IndexActionInputRef, IndexActionOutput, IndexActionOutputRefResult,
    PreIndexActionInput, PreIndexActionInputRef, PreIndexActionOutput, RefCreateSessionIndex,
    RefCreateSessionResult, RefDeleteAccountIndex, RefDeleteAccountResult,
};
use web5_pds::plc_types::{Service, Web5DocumentData};
use web5_pds::pre_index_action::{
    pre_index_action_finish, pre_index_action_finish_at, pre_index_action_start, PreIndexAction,
};

const MADE: u64 = 1_700_000_000;

fn secret() -> secp256k1::SecretKey {
    secp256k1::SecretKey::from_slice(&[0x61u8; 32]).unwrap()
}

fn key() -> String {
    let public = secp256k1::PublicKey::from_secret_key(&secp256k1::Secp256k1::new(), &secret());
    rsky_crypto::did::format_did_key("ES256K".to_string(), public.serialize_uncompressed().to_vec()).unwrap()
}

fn sign(message: &str) -> String {
    let digest = digest_message(message);
    let mut made = secp256k1::Secp256k1::new()
        .sign_ecdsa(&secp256k1::Message::from_digest_slice(&digest).unwrap(), &secret());
    made.normalize_s();
    format!("0x{}", hex::encode(made.serialize_compact()))
}

fn create_session() -> IndexActionInputRef {
    IndexActionInputRef::CreateSessionIndex(RefCreateSessionIndex {})
}

fn delete_account() -> IndexActionInputRef {
    IndexActionInputRef::DeleteAccountIndex(RefDeleteAccountIndex {})
}

fn input(index: IndexActionInputRef, handle: &str) -> IndexActionInput {
    let statement = index.statement();
    let message = challenge_message("pds.example", "ckt1alice", handle, MADE, &statement);
    IndexActionInput {
        did: "DID:Web5:Alice".to_string(),
        signed_bytes: sign(&message),
        message,
        signing_key: key(),
        ckb_addr: Some("ckt1alice".to_string()),
        index,
    }
}

fn account() -> Account {
    Account {
        did: "did:web5:alice".to_string(),
        handle: Some("alice.example".to_string()),
        ckb_address: Some("ckt1alice".to_string()),
        email: Some("alice@example.com".to_string()),
        email_confirmed: true,
        deactivated: false,
    }
}

fn document() -> Web5DocumentData {
    Web5DocumentData {
        verification_methods: vec![("atproto".to_string(), key())],
        also_known_as: vec!["at://alice.example".to_string()],
        services: vec![(
            "atproto_pds".to_string(),
            Service { kind: "AtprotoPersonalDataServer".to_string(), endpoint: "https://pds.example".to_string() },
        )],
    }
}

fn go(turn: IndexTurn, event: IndexEvent) -> IndexTurn {
    index_action_step_at(turn.next.expect("the run has ended"), event, Some(MADE + 60))
}

fn authorised(index: IndexActionInputRef) -> IndexTurn {
    let turn = index_action_start(input(index, "alice.example"));
    let turn = go(turn, IndexEvent::Account(AccountLookup::Found(account())));
    go(turn, IndexEvent::Document(Resolution::Found(document())))
}

fn failure(turn: &IndexTurn) -> Option<ApiError> {
    match &turn.action {
        IndexAction::Fail(e) => {
            assert!(turn.next.is_none());
            Some(*e)
        }
        _ => None,
    }
}

#[test]
fn privileged_request_needs_a_ledger_address() {
    let mut request = input(create_session(), "alice.example");
    request.ckb_addr = None;
    assert_eq!(failure(&index_action_start(request)), Some(ApiError::CkbAddrNotFound));
}

#[test]
fn privileged_request_looks_the_account_up_in_lower_case() {
    let turn = index_action_start(input(create_session(), "alice.example"));
    assert_eq!(
        turn.action,
        IndexAction::GetAccount(AccountQuery {
            identifier: "did:web5:alice".to_string(),
            include_deactivated: Some(true),
            include_taken_down: Some(true),
        })
    );
    let state = turn.next.unwrap();
    assert_eq!(state.step, IndexStep::AwaitAccount);
    assert_eq!(state.did, "did:web5:alice");
    assert_eq!(state.user, None);
}

#[test]
fn unknown_account_is_an_invalid_login() {
    for lookup in [AccountLookup::Absent, AccountLookup::Failed] {
        let turn = index_action_start(input(create_session(), "alice.example"));
        assert_eq!(failure(&go(turn, IndexEvent::Account(lookup))), Some(ApiError::InvalidLogin));
    }
}

#[test]
fn account_bound_to_another_address_is_refused() {
    for address in [None, Some("ckt1bob".to_string())] {
        let mut other = account();
        other.ckb_address = address;
        let turn = index_action_start(input(create_session(), "alice.example"));
        assert_eq!(
            failure(&go(turn, IndexEvent::Account(AccountLookup::Found(other)))),
            Some(ApiError::InvalidRequest(RequestFault::AddressInconsistent))
        );
    }
}

#[test]
fn found_account_leads_to_the_resolver() {
    let turn = index_action_start(input(create_session(), "alice.example"));
    let turn = go(turn, IndexEvent::Account(AccountLookup::Found(account())));
    assert_eq!(turn.action, IndexAction::Resolve("ckt1alice".to_string()));
    assert_eq!(turn.next.as_ref().unwrap().step, IndexStep::AwaitDocument);
    assert_eq!(turn.next.unwrap().user, Some(account()));
}

#[test]
fn session_is_opened_for_a_fresh_signed_challenge() {
    let turn = authorised(create_session());
    assert_eq!(turn.action, IndexAction::CreateSession("did:web5:alice".to_string()));
    let turn = go(
        turn,
        IndexEvent::Session(SessionOutcome::Opened(Tokens {
            access_jwt: "access".to_string(),
            refresh_jwt: "refresh".to_string(),
        })),
    );
    assert!(turn.next.is_none());
    assert_eq!(
        turn.action,
        IndexAction::Succeed(IndexActionOutput {
            result: IndexActionOutputRefResult::CreateSessionResult(RefCreateSessionResult {
                did: "did:web5:alice".to_string(),
                did_doc: Some(document()),
                handle: "alice.example".to_string(),
                email: Some("alice@example.com".to_string()),
                email_confirmed: Some(true),
                access_jwt: "access".to_string(),
                refresh_jwt: "refresh".to_string(),
            }),
        })
    );
}

#[test]
fn session_that_cannot_be_opened_fails_the_request() {
    let turn = go(authorised(create_session()), IndexEvent::Session(SessionOutcome::Failed));
    assert_eq!(failure(&turn), Some(ApiError::RuntimeError));
}

#[test]
fn account_is_deleted_announced_and_compacted_in_that_order() {
    let mut actions = Vec::new();
    let mut turn = authorised(delete_account());
    for event in [
        IndexEvent::Destroyed(Outcome::Done),
        IndexEvent::Deleted(Outcome::Done),
        IndexEvent::Sequenced(SequenceOutcome::Sequenced(42)),
        IndexEvent::Compacted(Outcome::Done),
    ] {
        actions.push(turn.action.clone());
        turn = go(turn, event);
    }
    actions.push(turn.action.clone());
    assert!(turn.next.is_none());
    assert_eq!(
        actions,
        vec![
            IndexAction::DestroyStore("did:web5:alice".to_string()),
            IndexAction::DeleteAccount("did:web5:alice".to_string()),
            IndexAction::Emit(Emission::Account(AccountEvent {
                did: "did:web5:alice".to_string(),
                status: AccountStatus::Deleted,
            })),
            IndexAction::Compact(Compaction { did: "did:web5:alice".to_string(), except: vec![42] }),
            IndexAction::Succeed(IndexActionOutput {
                result: IndexActionOutputRefResult::DeleteAccountResult(RefDeleteAccountResult {}),
            }),
        ]
    );
}

#[test]
fn deletion_stops_at_the_first_collaborator_that_fails() {
    let script = [
        (IndexEvent::Destroyed(Outcome::Failed), ApiError::Storage),
        (IndexEvent::Deleted(Outcome::Failed), ApiError::Storage),
        (IndexEvent::Sequenced(SequenceOutcome::Failed), ApiError::Sequencer),
        (IndexEvent::Compacted(Outcome::Failed), ApiError::Sequencer),
    ];
    let good = [
        IndexEvent::Destroyed(Outcome::Done),
        IndexEvent::Deleted(Outcome::Done),
        IndexEvent::Sequenced(SequenceOutcome::Sequenced(7)),
    ];
    for (at, (bad, error)) in script.into_iter().enumerate() {
        let mut turn = authorised(delete_account());
        for event in good.iter().take(at) {
            turn = go(turn, event.clone());
        }
        assert_eq!(failure(&go(turn, bad)), Some(error));
    }
}

#[test]
fn nothing_is_done_for_an_address_without_a_document() {
    for index in [create_session(), delete_account()] {
        for handle in ["alice.example", "deleteHandle"] {
            let turn = index_action_start(input(index.clone(), handle));
            let turn = go(turn, IndexEvent::Account(AccountLookup::Found(account())));
            let turn =
                go(turn, IndexEvent::Document(Resolution::Failed(ApiError::CkbDidocCellNotFound)));
            assert_eq!(failure(&turn), Some(ApiError::CkbDidocCellNotFound));
        }
    }
}

#[test]
fn resolver_failure_ends_the_request() {
    let turn = index_action_start(input(create_session(), "alice.example"));
    let turn = go(turn, IndexEvent::Account(AccountLookup::Found(account())));
    let turn = go(
        turn,
        IndexEvent::Document(Resolution::Failed(ApiError::InvalidCkbError(CkbFault::Transport))),
    );
    assert_eq!(failure(&turn), Some(ApiError::InvalidCkbError(CkbFault::Transport)));
}

#[test]
fn document_must_bind_the_account_and_the_key() {
    let resolve = |doc: Web5DocumentData, user: Account| {
        let turn = index_action_start(input(create_session(), "alice.example"));
        let turn = go(turn, IndexEvent::Account(AccountLookup::Found(user)));
        failure(&go(turn, IndexEvent::Document(Resolution::Found(doc))))
    };
    let mut unbound = document();
    unbound.also_known_as.clear();
    assert_eq!(resolve(unbound, account()), Some(ApiError::IncompatibleDidDoc));
    let mut web = document();
    web.also_known_as[0] = "https://alice.example".to_string();
    assert_eq!(resolve(web, account()), Some(ApiError::IncompatibleDidDoc));
    let mut renamed = document();
    renamed.also_known_as[0] = "at://bob.example".to_string();
    assert_eq!(resolve(renamed, account()), Some(ApiError::InvalidHandle));
    let mut nameless = account();
    nameless.handle = None;
    assert_eq!(resolve(document(), nameless), Some(ApiError::InvalidHandle));
    let mut rekeyed = document();
    rekeyed.verification_methods[0].1 = "did:key:zOther".to_string();
    assert_eq!(
        resolve(rekeyed, account()),
        Some(ApiError::InvalidRequest(RequestFault::SigningKeyInconsistent))
    );
}

#[test]
fn nothing_is_done_for_a_challenge_that_does_not_authorise() {
    let attempt = |request: IndexActionInput, now: Option<u64>| {
        let turn = index_action_start(request);
        let turn = go(turn, IndexEvent::Account(AccountLookup::Found(account())));
        failure(&index_action_step_at(
            turn.next.unwrap(),
            IndexEvent::Document(Resolution::Found(document())),
            now,
        ))
    };
    let good = input(delete_account(), "alice.example");
    assert_eq!(
        attempt(good.clone(), Some(MADE + 120)),
        Some(ApiError::InvalidRequest(RequestFault::SignMessageTimeout))
    );
    assert_eq!(attempt(good.clone(), None), Some(ApiError::Challenge(ChallengeError::ClockUnavailable)));
    let mut wrong_action = input(create_session(), "alice.example");
    wrong_action.index = delete_account();
    assert_eq!(
        attempt(wrong_action, Some(MADE)),
        Some(ApiError::InvalidRequest(RequestFault::StatementCheck))
    );
    let mut unsigned = good.clone();
    unsigned.signed_bytes = sign("something else");
    assert_eq!(attempt(unsigned, Some(MADE)), Some(ApiError::Crypto(CryptoError::Mismatch)));
    let mut garbled = good.clone();
    garbled.signed_bytes = "0xzz".to_string();
    assert_eq!(
        attempt(garbled, Some(MADE)),
        Some(ApiError::InvalidRequest(RequestFault::SignatureDecode))
    );
    let mut timeless = good.clone();
    timeless.message = "Statement: Delete account".to_string();
    assert_eq!(
        attempt(timeless, Some(MADE)),
        Some(ApiError::Challenge(ChallengeError::TimestampMissing))
    );
    assert_eq!(attempt(good, Some(MADE + 119)), None);
}

#[test]
fn answer_that_does_not_belong_to_the_station_fails_the_request() {
    let turn = index_action_start(input(create_session(), "alice.example"));
    assert_eq!(
        failure(&go(turn, IndexEvent::Compacted(Outcome::Done))),
        Some(ApiError::RuntimeError)
    );
    let turn = authorised(create_session());
    assert_eq!(
        failure(&go(turn, IndexEvent::Destroyed(Outcome::Done))),
        Some(ApiError::RuntimeError)
    );
}

#[test]
fn stale_challenge_is_refused_by_the_local_clock() {
    let turn = index_action_start(input(create_session(), "alice.example"));
    let turn = go(turn, IndexEvent::Account(AccountLookup::Found(account())));
    let turn = index_action_step(turn.next.unwrap(), IndexEvent::Document(Resolution::Found(document())));
    assert_eq!(failure(&turn), Some(ApiError::InvalidRequest(RequestFault::SignMessageTimeout)));
}

fn pre_input(index: PreIndexActionInputRef) -> PreIndexActionInput {
    PreIndexActionInput { did: "DID:WEB5:Alice".to_string(), ckb_addr: Some("ckt1alice".to_string()), index }
}

#[test]
fn challenge_is_made_for_the_bound_handle() {
    let index = PreIndexActionInputRef::CreateSessionIndex(RefCreateSessionIndex {});
    let turn = pre_index_action_start(pre_input(index), Some("pds.example".to_string()));
    assert_eq!(turn.action, PreIndexAction::Resolve("ckt1alice".to_string()));
    let out = pre_index_action_finish_at(turn.next.unwrap(), Resolution::Found(document()), Some(MADE));
    assert_eq!(
        out,
        Ok(PreIndexActionOutput {
            did: "did:web5:alice".to_string(),
            handle: "alice.example".to_string(),
            message: format!(
                "Web5 Login\nDomain: pds.example\nAddress: ckt1alice\nHandle: alice.example\nTimestamp: {MADE}\nStatement: Create session"
            ),
        })
    );
}

#[test]
fn challenge_for_deleting_is_made_for_a_stand_in_where_the_document_is_gone() {
    let gone = || Resolution::Failed(ApiError::CkbDidocCellNotFound);
    let delete = PreIndexActionInputRef::DeleteAccountIndex(RefDeleteAccountIndex {});
    let turn = pre_index_action_start(pre_input(delete), Some("pds.example".to_string()));
    assert_eq!(
        pre_index_action_finish_at(turn.next.unwrap(), gone(), Some(9)),
        Ok(PreIndexActionOutput {
            did: "did:web5:alice".to_string(),
            handle: "deleteHandle".to_string(),
            message: "Web5 Login\nDomain: pds.example\nAddress: ckt1alice\nHandle: deleteHandle\nTimestamp: 9\nStatement: Delete account".to_string(),
        })
    );
    let create = PreIndexActionInputRef::CreateSessionIndex(RefCreateSessionIndex {});
    let turn = pre_index_action_start(pre_input(create), Some("pds.example".to_string()));
    assert_eq!(
        pre_index_action_finish_at(turn.next.unwrap(), gone(), Some(9)),
        Err(ApiError::CkbDidocCellNotFound)
    );
    let delete = PreIndexActionInputRef::DeleteAccountIndex(RefDeleteAccountIndex {});
    let turn = pre_index_action_start(pre_input(delete), Some("pds.example".to_string()));
    assert_eq!(
        pre_index_action_finish_at(
            turn.next.unwrap(),
            Resolution::Failed(ApiError::CkbAddrNoCell),
            Some(9)
        ),
        Err(ApiError::CkbAddrNoCell)
    );
}

#[test]
fn challenge_for_deleting_states_the_deletion() {
    let delete = PreIndexActionInputRef::DeleteAccountIndex(RefDeleteAccountIndex {});
    let turn = pre_index_action_start(pre_input(delete), Some("pds.example".to_string()));
    let out = pre_index_action_finish_at(turn.next.unwrap(), Resolution::Found(document()), Some(9)).unwrap();
    assert_eq!(
        out.message,
        "Web5 Login\nDomain: pds.example\nAddress: ckt1alice\nHandle: alice.example\nTimestamp: 9\nStatement: Delete account"
    );
}

#[test]
fn challenge_needs_address_handle_domain_and_clock() {
    let index = || PreIndexActionInputRef::CreateSessionIndex(RefCreateSessionIndex {});
    let mut without_address = pre_input(index());
    without_address.ckb_addr = None;
    let turn = pre_index_action_start(without_address, Some("pds.example".to_string()));
    assert!(turn.next.is_none());
    assert_eq!(turn.action, PreIndexAction::Fail(ApiError::CkbAddrNotFound));
    let state = || pre_index_action_start(pre_input(index()), Some("pds.example".to_string())).next.unwrap();
    let mut unbound = document();
    unbound.also_known_as = vec!["did:web:x".to_string()];
    assert_eq!(
        pre_index_action_finish_at(state(), Resolution::Found(unbound), Some(1)),
        Err(ApiError::IncompatibleDidDoc)
    );
    assert_eq!(
        pre_index_action_finish_at(
            state(),
            Resolution::Failed(ApiError::InvalidCkbError(CkbFault::LiveCell)),
            Some(1)
        ),
        Err(ApiError::InvalidCkbError(CkbFault::LiveCell))
    );
    assert_eq!(
        pre_index_action_finish_at(state(), Resolution::Found(document()), None),
        Err(ApiError::Challenge(ChallengeError::ClockUnavailable))
    );
    let homeless = pre_index_action_start(pre_input(index()), None).next.unwrap();
    assert_eq!(
        pre_index_action_finish_at(homeless, Resolution::Found(document()), Some(1)),
        Err(ApiError::UnsupportedDomain)
    );
    let made = pre_index_action_finish(state(), Resolution::Found(document())).unwrap();
    assert!(made.message.ends_with("\nStatement: Create session"));
}
