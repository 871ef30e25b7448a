use web5_pds::collab::{
    Account, AccountLookup, AccountQuery, CommitEvent, Emission, Outcome, Resolution, RootUpdate,
    SequenceOutcome,
};
use web5_pds::commit::{AppliedCommit, Commit, CommitError, UnsignedCommit};
use web5_pds::content_id::cid_of_block;
use web5_pds::crypto::CryptoError;
use web5_pds::direct_writes::{
    direct_writes_start, direct_writes_step, Application, ApplyOutcome, DirectAction,
    DirectEvent, DirectStep, DirectTurn,
};
use web5_pds::error::{ApiError, AuthFault, CkbFault, ErrorClass, RequestFault};
use web5_pds::lexicon::{
    CommitMeta, DirectWritesInput, DirectWritesInputRefWrite, DirectWritesOutput,
    DirectWritesOutputRefWrite, PreDirectWritesInput, PreDirectWritesInputRefWrite,
    PreDirectWritesOutput, RefWriteCreate, RefWriteCreateResult, RefWriteDelete,
    RefWriteDeleteResult, RefWriteUpdate, SignedRoot,
};
use web5_pds::plc_types::Web5DocumentData;
use web5_pds::pre_direct_writes::{
    pre_direct_writes_start, pre_direct_writes_step, pre_writes_output, CommitRequest, Draft,
    DraftOutcome, PreDirectAction, PreDirectEvent, PreDirectStep, PreDirectTurn,
};
use web5_pds::write_flow::{check_writer, from_commit, from_prepare, pair_up, Credentials};
use web5_pds::writes::{
    AssessedWrite, Assessment, PrepareError, PreparedDelete, PreparedRecord, PreparedWrite,
    WriteAction, WriteRequest,
};

fn root() -> SignedRoot {
    SignedRoot {
        did: "did:web5:alice".to_string(),
        rev: "r1".to_string(),
        data: "bafydata".to_string(),
        prev: Some("bafyprev".to_string()),
        version: 3,
        signed_bytes: "0xabcd".to_string(),
    }
}

fn create(key: Option<&str>, value: &[u8]) -> RefWriteCreate {
    RefWriteCreate {
        collection: "app.bbs.post".to_string(),
        rkey: key.map(|k| k.to_string()),
        value: Some(value.to_vec()),
    }
}

fn delete(key: &str) -> RefWriteDelete {
    RefWriteDelete { collection: "app.bbs.post".to_string(), rkey: key.to_string() }
}

fn input(writes: Vec<DirectWritesInputRefWrite>) -> DirectWritesInput {
    DirectWritesInput {
        repo: "alice.example".to_string(),
        validate: Some(true),
        writes,
        swap_commit: None,
        signing_key: "did:key:zAlice".to_string(),
        ckb_addr: Some("ckt1alice".to_string()),
        root: root(),
    }
}

fn two_writes() -> Vec<DirectWritesInputRefWrite> {
    vec![
        DirectWritesInputRefWrite::Create(create(None, b"hello")),
        DirectWritesInputRefWrite::Delete(delete("old")),
    ]
}

fn owner() -> Option<Credentials> {
    Some(Credentials { did: Some("did:web5:alice".to_string()) })
}

fn account() -> Account {
    Account {
        did: "did:web5:alice".to_string(),
        handle: Some("alice.example".to_string()),
        ckb_address: Some("ckt1alice".to_string()),
        email: None,
        email_confirmed: false,
        deactivated: false,
    }
}

fn document() -> Web5DocumentData {
    Web5DocumentData {
        verification_methods: vec![("atproto".to_string(), "did:key:zAlice".to_string())],
        also_known_as: vec!["at://alice.example".to_string()],
        services: Vec::new(),
    }
}

fn assessment(conforms: bool) -> Assessment {
    Assessment { conforms, fresh_key: "3kfresh".to_string() }
}

fn commit() -> AppliedCommit {
    AppliedCommit {
        cid: "bafycommit".to_string(),
        commit: Commit {
            did: "did:web5:alice".to_string(),
            rev: "r1".to_string(),
            data: "bafydata".to_string(),
            prev: Some("bafyprev".to_string()),
            version: 3,
            sig: vec![0xab, 0xcd],
        },
    }
}

fn go(turn: DirectTurn, event: DirectEvent) -> DirectTurn {
    direct_writes_step(turn.next.expect("the run has ended"), event)
}

fn measured(request: DirectWritesInput, auth: Option<Credentials>, user: Account, doc: Web5DocumentData) -> DirectTurn {
    let turn = direct_writes_start(request, auth);
    let turn = go(turn, DirectEvent::Account(AccountLookup::Found(user)));
    go(turn, DirectEvent::Document(Resolution::Found(doc)))
}

fn failure(turn: &DirectTurn) -> Option<ApiError> {
    match &turn.action {
        DirectAction::Fail(e) => {
            assert!(turn.next.is_none());
            Some(*e)
        }
        _ => None,
    }
}

fn prepared() -> Vec<PreparedWrite> {
    vec![
        PreparedWrite::Create(PreparedRecord {
            uri: "at://did:web5:alice/app.bbs.post/3kfresh".to_string(),
            cid: cid_of_block(&b"hello".to_vec()),
            record: b"hello".to_vec(),
        }),
        PreparedWrite::Delete(PreparedDelete { uri: "at://did:web5:alice/app.bbs.post/old".to_string() }),
    ]
}

#[test]
fn direct_write_runs_through_all_stations() {
    let mut actions = Vec::new();
    let mut turn = direct_writes_start(input(two_writes()), owner());
    for event in [
        DirectEvent::Account(AccountLookup::Found(account())),
        DirectEvent::Document(Resolution::Found(document())),
        DirectEvent::Assessed(vec![assessment(true), assessment(false)]),
        DirectEvent::Applied(ApplyOutcome::Applied(commit())),
        DirectEvent::Sequenced(SequenceOutcome::Sequenced(11)),
        DirectEvent::RootUpdated(Outcome::Done),
    ] {
        actions.push(turn.action.clone());
        turn = go(turn, event);
    }
    actions.push(turn.action.clone());
    assert!(turn.next.is_none());
    assert_eq!(
        actions,
        vec![
            DirectAction::GetAccount(AccountQuery {
                identifier: "alice.example".to_string(),
                include_deactivated: Some(true),
                include_taken_down: None,
            }),
            DirectAction::Resolve("ckt1alice".to_string()),
            DirectAction::Assess(vec![
                WriteRequest {
                    action: WriteAction::Create,
                    collection: "app.bbs.post".to_string(),
                    rkey: None,
                    record: Some(b"hello".to_vec()),
                },
                WriteRequest {
                    action: WriteAction::Delete,
                    collection: "app.bbs.post".to_string(),
                    rkey: Some("old".to_string()),
                    record: None,
                },
            ]),
            DirectAction::VerifyWrites(Application {
                did: "did:web5:alice".to_string(),
                writes: prepared(),
                swap_commit: None,
                signing_key: "did:key:zAlice".to_string(),
                root: root(),
            }),
            DirectAction::Emit(Emission::Commit(CommitEvent {
                did: "did:web5:alice".to_string(),
                commit: commit(),
            })),
            DirectAction::UpdateRepoRoot(RootUpdate {
                did: "did:web5:alice".to_string(),
                cid: "bafycommit".to_string(),
                rev: "r1".to_string(),
            }),
            DirectAction::Succeed(DirectWritesOutput {
                commit: Some(CommitMeta { cid: "bafycommit".to_string(), rev: "r1".to_string() }),
                results: Some(vec![
                    DirectWritesOutputRefWrite::Create(RefWriteCreateResult {
                        uri: "at://did:web5:alice/app.bbs.post/3kfresh".to_string(),
                        cid: cid_of_block(&b"hello".to_vec()),
                        validation_status: Some("valid".to_string()),
                    }),
                    DirectWritesOutputRefWrite::Delete(RefWriteDeleteResult {}),
                ]),
            }),
        ]
    );
}

#[test]
fn direct_write_needs_address_and_account() {
    let mut homeless = input(two_writes());
    homeless.ckb_addr = None;
    assert_eq!(failure(&direct_writes_start(homeless, owner())), Some(ApiError::CkbAddrNotFound));
    let start = || direct_writes_start(input(two_writes()), owner());
    assert_eq!(start().next.unwrap().step, DirectStep::AwaitAccount);
    assert_eq!(
        failure(&go(start(), DirectEvent::Account(AccountLookup::Absent))),
        Some(ApiError::InvalidRequest(RequestFault::RepoNotFound))
    );
    assert_eq!(failure(&go(start(), DirectEvent::Account(AccountLookup::Failed))), Some(ApiError::Storage));
    let mut moved = account();
    moved.ckb_address = Some("ckt1other".to_string());
    assert_eq!(
        failure(&go(start(), DirectEvent::Account(AccountLookup::Found(moved)))),
        Some(ApiError::InvalidRequest(RequestFault::AddressInconsistent))
    );
}

#[test]
fn direct_write_is_checked_before_the_object_store_is_touched() {
    let check = |request: DirectWritesInput, auth: Option<Credentials>, user: Account, doc: Web5DocumentData| {
        failure(&measured(request, auth, user, doc))
    };
    assert_eq!(check(input(two_writes()), owner(), account(), document()), None);
    let mut unbound = document();
    unbound.also_known_as.clear();
    assert_eq!(check(input(two_writes()), owner(), account(), unbound), Some(ApiError::IncompatibleDidDoc));
    let mut renamed = account();
    renamed.handle = Some("bob.example".to_string());
    assert_eq!(check(input(two_writes()), owner(), renamed, document()), Some(ApiError::InvalidHandle));
    let mut rekeyed = input(two_writes());
    rekeyed.signing_key = "did:key:zOther".to_string();
    assert_eq!(
        check(rekeyed, owner(), account(), document()),
        Some(ApiError::InvalidRequest(RequestFault::SigningKeyInconsistent))
    );
    let mut idle = account();
    idle.deactivated = true;
    assert_eq!(
        check(input(two_writes()), owner(), idle, document()),
        Some(ApiError::InvalidRequest(RequestFault::AccountDeactivated))
    );
    assert_eq!(
        check(input(two_writes()), None, account(), document()),
        Some(ApiError::AuthRequiredError(AuthFault::MissingCredentials))
    );
    assert_eq!(
        check(input(two_writes()), Some(Credentials { did: None }), account(), document()),
        Some(ApiError::InvalidRequest(RequestFault::CredentialsWithoutDid))
    );
    assert_eq!(
        check(
            input(two_writes()),
            Some(Credentials { did: Some("did:web5:mallory".to_string()) }),
            account(),
            document()
        ),
        Some(ApiError::AuthRequiredError(AuthFault::DidInconsistent))
    );
    let turn = direct_writes_start(input(two_writes()), owner());
    let turn = go(turn, DirectEvent::Account(AccountLookup::Found(account())));
    let turn = go(turn, DirectEvent::Document(Resolution::Failed(ApiError::CkbDidocCellNotFound)));
    assert_eq!(failure(&turn), Some(ApiError::CkbDidocCellNotFound));
}

#[test]
fn direct_write_of_more_than_200_operations_never_reaches_the_object_store() {
    let many = |n: usize| -> Vec<DirectWritesInputRefWrite> {
        (0..n).map(|i| DirectWritesInputRefWrite::Delete(delete(&format!("k{i}")))).collect()
    };
    let refused = measured(input(many(201)), owner(), account(), document());
    assert_eq!(failure(&refused), Some(ApiError::InvalidRequest(RequestFault::TooManyWrites)));
    assert_eq!(failure(&refused).unwrap().class(), ErrorClass::RecordInvalid);
    let taken = measured(input(many(200)), owner(), account(), document());
    assert!(matches!(&taken.action, DirectAction::Assess(requests) if requests.len() == 200));
}

#[test]
fn direct_write_prepares_the_batch_or_fails() {
    let assessed = |request: DirectWritesInput, assessments: Vec<Assessment>| {
        let turn = measured(request, owner(), account(), document());
        go(turn, DirectEvent::Assessed(assessments))
    };
    assert_eq!(
        failure(&assessed(input(two_writes()), vec![assessment(false), assessment(true)])),
        Some(ApiError::RecordInvalid)
    );
    assert_eq!(
        failure(&assessed(input(two_writes()), vec![assessment(true)])),
        Some(ApiError::RuntimeError)
    );
    let mut unchecked = input(two_writes());
    unchecked.validate = Some(false);
    let turn = assessed(unchecked, vec![assessment(false), assessment(false)]);
    assert!(matches!(turn.action, DirectAction::VerifyWrites(_)));
    let mut swapping = input(two_writes());
    swapping.swap_commit = Some("not a cid".to_string());
    assert_eq!(
        failure(&assessed(swapping, vec![assessment(true), assessment(true)])),
        Some(ApiError::InvalidRequest(RequestFault::SwapCommitConvert))
    );
    let expected = cid_of_block(&b"previous".to_vec());
    let mut swapping = input(two_writes());
    swapping.swap_commit = Some(expected.clone());
    let turn = assessed(swapping, vec![assessment(true), assessment(true)]);
    assert!(matches!(&turn.action, DirectAction::VerifyWrites(a) if a.swap_commit == Some(expected.clone())));
    assert_eq!(turn.next.unwrap().step, DirectStep::AwaitApply);
}

#[test]
fn direct_write_surfaces_what_the_commit_generator_and_the_log_refuse() {
    let applying = || {
        let turn = measured(input(two_writes()), owner(), account(), document());
        go(turn, DirectEvent::Assessed(vec![assessment(true), assessment(true)]))
    };
    for (refusal, error) in [
        (CommitError::SwapMismatch, ApiError::SwapMismatch),
        (CommitError::SignatureRejected, ApiError::Crypto(CryptoError::Mismatch)),
        (
            CommitError::Crypto(CryptoError::KeyOrSignature),
            ApiError::Crypto(CryptoError::KeyOrSignature),
        ),
        (CommitError::TooManyWrites, ApiError::InvalidRequest(RequestFault::TooManyWrites)),
        (CommitError::StaleRevision, ApiError::InvalidRequest(RequestFault::StaleRevision)),
        (CommitError::IdentifierReused, ApiError::Storage),
    ] {
        let turn = go(applying(), DirectEvent::Applied(ApplyOutcome::Refused(refusal)));
        assert_eq!(failure(&turn), Some(error));
        assert_eq!(error.class(), refusal.class());
        assert_eq!(from_commit(refusal), error);
    }
    assert_eq!(
        failure(&go(applying(), DirectEvent::Applied(ApplyOutcome::Failed))),
        Some(ApiError::Storage)
    );
    let announced = || go(applying(), DirectEvent::Applied(ApplyOutcome::Applied(commit())));
    assert_eq!(
        failure(&go(announced(), DirectEvent::Sequenced(SequenceOutcome::Failed))),
        Some(ApiError::Sequencer)
    );
    let updating = go(announced(), DirectEvent::Sequenced(SequenceOutcome::Sequenced(3)));
    assert_eq!(failure(&go(updating, DirectEvent::RootUpdated(Outcome::Failed))), Some(ApiError::Storage));
    assert_eq!(
        failure(&go(announced(), DirectEvent::RootUpdated(Outcome::Done))),
        Some(ApiError::RuntimeError)
    );
}

#[test]
fn writer_must_own_the_repository() {
    let did = "did:web5:alice".to_string();
    assert_eq!(check_writer(&owner(), &did), None);
    assert_eq!(check_writer(&None, &did), Some(ApiError::AuthRequiredError(AuthFault::MissingCredentials)));
    assert_eq!(
        check_writer(&Some(Credentials { did: None }), &did),
        Some(ApiError::InvalidRequest(RequestFault::CredentialsWithoutDid))
    );
    assert_eq!(
        check_writer(&Some(Credentials { did: Some("did:web5:Alice".to_string()) }), &did),
        Some(ApiError::AuthRequiredError(AuthFault::DidInconsistent))
    );
    assert_eq!(from_prepare(PrepareError::TooManyWrites), ApiError::InvalidRequest(RequestFault::TooManyWrites));
    assert_eq!(from_prepare(PrepareError::RecordInvalid), ApiError::RecordInvalid);
    assert_eq!(from_prepare(PrepareError::KeyRequired), ApiError::KeyRequired);
}

#[test]
fn operations_are_paired_with_their_assessments_in_order() {
    let request = |key: &str| WriteRequest {
        action: WriteAction::Delete,
        collection: "c".to_string(),
        rkey: Some(key.to_string()),
        record: None,
    };
    let fresh = |key: &str| Assessment { conforms: true, fresh_key: key.to_string() };
    assert_eq!(
        pair_up(vec![request("a"), request("b"), request("c")], vec![fresh("1"), fresh("2"), fresh("3")]),
        Some(vec![
            AssessedWrite { request: request("a"), assessment: fresh("1") },
            AssessedWrite { request: request("b"), assessment: fresh("2") },
            AssessedWrite { request: request("c"), assessment: fresh("3") },
        ])
    );
    assert_eq!(pair_up(Vec::new(), Vec::new()), Some(Vec::new()));
    assert_eq!(pair_up(vec![request("a")], Vec::new()), None);
    assert_eq!(pair_up(Vec::new(), vec![fresh("1")]), None);
}

fn pre_input(writes: Vec<PreDirectWritesInputRefWrite>) -> PreDirectWritesInput {
    PreDirectWritesInput { repo: "alice.example".to_string(), validate: None, writes, swap_commit: None }
}

fn pre_two() -> Vec<PreDirectWritesInputRefWrite> {
    vec![
        PreDirectWritesInputRefWrite::Update(RefWriteUpdate {
            collection: "app.bbs.post".to_string(),
            rkey: "k1".to_string(),
            value: Some(b"new".to_vec()),
        }),
        PreDirectWritesInputRefWrite::Create(create(Some("k2"), b"hello")),
    ]
}

fn pre_go(turn: PreDirectTurn, event: PreDirectEvent) -> PreDirectTurn {
    pre_direct_writes_step(turn.next.expect("the run has ended"), event)
}

fn unsigned() -> UnsignedCommit {
    UnsignedCommit {
        did: "did:web5:alice".to_string(),
        rev: "r1".to_string(),
        data: "bafydata".to_string(),
        prev: Some("bafyprev".to_string()),
        version: 3,
    }
}

#[test]
fn commit_is_drafted_for_signing() {
    let turn = pre_direct_writes_start(pre_input(pre_two()), owner());
    assert_eq!(turn.next.as_ref().unwrap().step, PreDirectStep::AwaitAccount);
    assert_eq!(
        turn.action,
        PreDirectAction::GetAccount(AccountQuery {
            identifier: "alice.example".to_string(),
            include_deactivated: Some(true),
            include_taken_down: None,
        })
    );
    let turn = pre_go(turn, PreDirectEvent::Account(AccountLookup::Found(account())));
    assert!(matches!(&turn.action, PreDirectAction::Assess(requests) if requests.len() == 2));
    let turn = pre_go(turn, PreDirectEvent::Assessed(vec![assessment(true), assessment(true)]));
    assert_eq!(
        turn.action,
        PreDirectAction::GenerateCommit(CommitRequest {
            did: "did:web5:alice".to_string(),
            writes: vec![
                PreparedWrite::Update(PreparedRecord {
                    uri: "at://did:web5:alice/app.bbs.post/k1".to_string(),
                    cid: cid_of_block(&b"new".to_vec()),
                    record: b"new".to_vec(),
                }),
                PreparedWrite::Create(PreparedRecord {
                    uri: "at://did:web5:alice/app.bbs.post/k2".to_string(),
                    cid: cid_of_block(&b"hello".to_vec()),
                    record: b"hello".to_vec(),
                }),
            ],
            swap_commit: None,
        })
    );
    let drafted = Draft { commit: unsigned(), encoded: Some(vec![0xa5, 0x01, 0xff]) };
    let turn = pre_go(turn, PreDirectEvent::Drafted(DraftOutcome::Drafted(drafted)));
    assert!(turn.next.is_none());
    assert_eq!(
        turn.action,
        PreDirectAction::Succeed(PreDirectWritesOutput {
            did: "did:web5:alice".to_string(),
            rev: "r1".to_string(),
            data: "bafydata".to_string(),
            prev: Some("bafyprev".to_string()),
            version: 3,
            un_sign_bytes: "a501ff".to_string(),
        })
    );
}

#[test]
fn drafting_twice_gives_the_same_bytes_to_sign() {
    let draft = || Draft { commit: unsigned(), encoded: Some((0..=255u8).collect()) };
    let one = pre_writes_output(draft()).unwrap();
    let two = pre_writes_output(draft()).unwrap();
    assert_eq!(one, two);
    assert_eq!(one.un_sign_bytes.len(), 512);
    assert_eq!(hex::decode(&one.un_sign_bytes).unwrap(), (0..=255u8).collect::<Vec<u8>>());
    assert_eq!(
        pre_writes_output(Draft { commit: unsigned(), encoded: None }),
        Err(ApiError::InvalidRequest(RequestFault::EncodingCommit))
    );
}

#[test]
fn draft_is_refused_for_strangers_idle_accounts_and_oversized_batches() {
    let found = |request: PreDirectWritesInput, auth: Option<Credentials>, user: Account| {
        let turn = pre_direct_writes_start(request, auth);
        pre_go(turn, PreDirectEvent::Account(AccountLookup::Found(user)))
    };
    let fail = |turn: PreDirectTurn| match turn.action {
        PreDirectAction::Fail(e) => Some(e),
        _ => None,
    };
    let mut idle = account();
    idle.deactivated = true;
    assert_eq!(
        fail(found(pre_input(pre_two()), owner(), idle)),
        Some(ApiError::InvalidRequest(RequestFault::AccountDeactivated))
    );
    assert_eq!(
        fail(found(pre_input(pre_two()), None, account())),
        Some(ApiError::AuthRequiredError(AuthFault::MissingCredentials))
    );
    let many: Vec<PreDirectWritesInputRefWrite> =
        (0..201).map(|i| PreDirectWritesInputRefWrite::Delete(delete(&format!("k{i}")))).collect();
    assert_eq!(
        fail(found(pre_input(many), owner(), account())),
        Some(ApiError::InvalidRequest(RequestFault::TooManyWrites))
    );
    let start = || pre_direct_writes_start(pre_input(pre_two()), owner());
    assert_eq!(
        fail(pre_go(start(), PreDirectEvent::Account(AccountLookup::Absent))),
        Some(ApiError::InvalidRequest(RequestFault::RepoNotFound))
    );
    assert_eq!(fail(pre_go(start(), PreDirectEvent::Account(AccountLookup::Failed))), Some(ApiError::Storage));
    let assessed = || {
        let turn = found(pre_input(pre_two()), owner(), account());
        pre_go(turn, PreDirectEvent::Assessed(vec![assessment(true), assessment(true)]))
    };
    assert_eq!(
        fail(pre_go(assessed(), PreDirectEvent::Drafted(DraftOutcome::Refused(CommitError::SwapMismatch)))),
        Some(ApiError::SwapMismatch)
    );
    assert_eq!(fail(pre_go(assessed(), PreDirectEvent::Drafted(DraftOutcome::Failed))), Some(ApiError::Storage));
    let turn = found(pre_input(pre_two()), owner(), account());
    assert_eq!(
        fail(pre_go(turn, PreDirectEvent::Assessed(vec![assessment(true), assessment(false)]))),
        Some(ApiError::RecordInvalid)
    );
    let mut swapping = pre_input(pre_two());
    swapping.swap_commit = Some("???".to_string());
    let turn = found(swapping, owner(), account());
    assert_eq!(
        fail(pre_go(turn, PreDirectEvent::Assessed(vec![assessment(true), assessment(true)]))),
        Some(ApiError::InvalidRequest(RequestFault::SwapCommitConvert))
    );
    assert_eq!(
        fail(pre_go(start(), PreDirectEvent::Assessed(Vec::new()))),
        Some(ApiError::RuntimeError)
    );
    assert_eq!(ApiError::InvalidCkbError(CkbFault::Response).class(), ErrorClass::StorageError);
}

#[test]
fn record_that_cannot_be_serialised_is_refused_after_the_checks() {
    let broken = || {
        let mut write = create(None, b"");
        write.value = None;
        input(vec![DirectWritesInputRefWrite::Create(write)])
    };
    let stranger = Some(Credentials { did: Some("did:web5:mallory".to_string()) });
    assert_eq!(
        failure(&measured(broken(), stranger, account(), document())),
        Some(ApiError::AuthRequiredError(AuthFault::DidInconsistent))
    );
    let turn = measured(broken(), owner(), account(), document());
    assert!(matches!(&turn.action, DirectAction::Assess(requests) if requests[0].record.is_none()));
    for conforms in [true, false] {
        let turn = measured(broken(), owner(), account(), document());
        assert_eq!(
            failure(&go(turn, DirectEvent::Assessed(vec![assessment(conforms)]))),
            Some(ApiError::RecordInvalid)
        );
    }
    let mut unchecked = broken();
    unchecked.validate = Some(false);
    let turn = measured(unchecked, owner(), account(), document());
    assert_eq!(
        failure(&go(turn, DirectEvent::Assessed(vec![assessment(true)]))),
        Some(ApiError::RecordInvalid)
    );
}
