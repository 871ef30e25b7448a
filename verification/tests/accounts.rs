use web5_pds::collab::{
    AccountEvent, AccountLookup, AccountQuery, AccountStatus, CommitEvent, Emission, EventKind,
    IdentityEvent, Outcome, Resolution, RootUpdate, SequenceOutcome, SessionOutcome, SyncEvent,
    Tokens,
};
use web5_pds::collab::Account;
use web5_pds::commit::{AppliedCommit, Commit};
use web5_pds::create_account::{
    create_account_start, create_account_step, create_account_step_with, make_mock_email,
    CreateAccountOpts, CreateAction, CreateEvent, CreateStep, CreateTurn, RepoCreation,
    RepoOutcome, Secrets,
};
use web5_pds::error::{ApiError, CkbFault};
use web5_pds::lexicon::{
    CreateAccountInput, CreateAccountOutput, PreCreateAccountInput, PreCreateAccountOutput,
    SignedRoot,
};
use web5_pds::plc_types::Web5DocumentData;
use web5_pds::pre_create_account::{
    pre_create_account_start, pre_create_account_step, validate_handle,
    validate_inputs_for_local_pds, DraftOutcome, HandleCheck, HandleOutcome, PreCreateAction,
    PreCreateEvent, PreCreateTurn, TransformedWeb5CreateAccountInput,
};

fn root() -> SignedRoot {
    SignedRoot {
        did: "did:web5:alice".to_string(),
        rev: "r0".to_string(),
        data: "bafydata".to_string(),
        prev: None,
        version: 3,
        signed_bytes: "0xabcd".to_string(),
    }
}

fn input() -> CreateAccountInput {
    CreateAccountInput {
        handle: "alice.example".to_string(),
        signing_key: "did:key:zAlice".to_string(),
        password: "unused".to_string(),
        root: root(),
        ckb_addr: "ckt1alice".to_string(),
        invite_code: Some("invite-1".to_string()),
    }
}

fn commit() -> AppliedCommit {
    AppliedCommit {
        cid: "bafycommit".to_string(),
        commit: Commit {
            did: "did:web5:alice".to_string(),
            rev: "r0".to_string(),
            data: "bafydata".to_string(),
            prev: None,
            version: 3,
            sig: vec![0xab, 0xcd],
        },
    }
}

fn secrets() -> Secrets {
    Secrets { email_tag: "Ab3dEf6hIj".to_string(), password: "0123456789abcdef".to_string() }
}

fn tokens() -> Tokens {
    Tokens { access_jwt: "access".to_string(), refresh_jwt: "refresh".to_string() }
}

fn go(turn: CreateTurn, event: CreateEvent) -> CreateTurn {
    create_account_step_with(turn.next.expect("the run has ended"), event, secrets())
}

fn unclaimed() -> CreateEvent {
    CreateEvent::Document(Resolution::Failed(ApiError::CkbDidocCellNotFound))
}

fn sequenced(n: u64) -> CreateEvent {
    CreateEvent::Sequenced(SequenceOutcome::Sequenced(n))
}

fn happy_script() -> Vec<CreateEvent> {
    vec![
        unclaimed(),
        CreateEvent::RepoCreated(RepoOutcome::Created(commit())),
        CreateEvent::AccountCreated(SessionOutcome::Opened(tokens())),
        sequenced(1),
        sequenced(2),
        sequenced(3),
        sequenced(4),
        CreateEvent::RootUpdated(Outcome::Done),
    ]
}

fn run(script: Vec<CreateEvent>) -> Vec<CreateAction> {
    let mut turn = create_account_start(input());
    let mut actions = vec![turn.action.clone()];
    for event in script {
        if turn.next.is_none() {
            break;
        }
        turn = go(turn, event);
        actions.push(turn.action.clone());
    }
    actions
}

fn announced(actions: &[CreateAction]) -> Vec<EventKind> {
    actions
        .iter()
        .filter_map(|a| match a {
            CreateAction::Emit(e) => Some(e.kind()),
            _ => None,
        })
        .collect()
}

#[test]
fn account_creation_runs_through_all_stations() {
    let did = || "did:web5:alice".to_string();
    assert_eq!(
        run(happy_script()),
        vec![
            CreateAction::Resolve("ckt1alice".to_string()),
            CreateAction::CreateRepo(RepoCreation {
                did: did(),
                root: root(),
                signing_key: "did:key:zAlice".to_string(),
            }),
            CreateAction::CreateAccount(CreateAccountOpts {
                did: did(),
                handle: "alice.example".to_string(),
                email: Some("web5MockAb3dEf6hIj@web5.com".to_string()),
                password: Some("0123456789abcdef".to_string()),
                repo_cid: "bafycommit".to_string(),
                repo_rev: "r0".to_string(),
                invite_code: Some("invite-1".to_string()),
                deactivated: Some(false),
                ckb_addr: Some("ckt1alice".to_string()),
            }),
            CreateAction::Emit(Emission::Identity(IdentityEvent {
                did: did(),
                handle: Some("alice.example".to_string()),
            })),
            CreateAction::Emit(Emission::Account(AccountEvent { did: did(), status: AccountStatus::Active })),
            CreateAction::Emit(Emission::Commit(CommitEvent { did: did(), commit: commit() })),
            CreateAction::Emit(Emission::Sync(SyncEvent { did: did(), commit: commit() })),
            CreateAction::UpdateRepoRoot(RootUpdate {
                did: did(),
                cid: "bafycommit".to_string(),
                rev: "r0".to_string(),
            }),
            CreateAction::Succeed(CreateAccountOutput {
                handle: "alice.example".to_string(),
                did: did(),
                did_doc: None,
                access_jwt: "access".to_string(),
                refresh_jwt: "refresh".to_string(),
            }),
        ]
    );
}

#[test]
fn account_creation_is_announced_in_the_fixed_order() {
    assert_eq!(
        announced(&run(happy_script())),
        vec![EventKind::Identity, EventKind::AccountStatus, EventKind::Commit, EventKind::Sync]
    );
}

#[test]
fn announcement_stops_where_the_log_fails_and_is_never_out_of_order() {
    let order = [EventKind::Identity, EventKind::AccountStatus, EventKind::Commit, EventKind::Sync];
    for failing in 0..4 {
        let mut script = happy_script();
        script[3 + failing] = CreateEvent::Sequenced(SequenceOutcome::Failed);
        let actions = run(script);
        assert_eq!(announced(&actions), order[..=failing].to_vec());
        assert_eq!(actions.last(), Some(&CreateAction::Fail(ApiError::Sequencer)));
        assert!(!actions.iter().any(|a| matches!(a, CreateAction::UpdateRepoRoot(_))));
    }
}

#[test]
fn address_that_has_a_document_cannot_be_claimed_again() {
    let claimed = CreateEvent::Document(Resolution::Found(Web5DocumentData {
        verification_methods: Vec::new(),
        also_known_as: Vec::new(),
        services: Vec::new(),
    }));
    assert_eq!(
        run(vec![claimed]).last(),
        Some(&CreateAction::Fail(ApiError::InvalidCkbError(CkbFault::AlreadyApplied)))
    );
    let broken = CreateEvent::Document(Resolution::Failed(ApiError::InvalidCkbError(CkbFault::Transport)));
    assert_eq!(
        run(vec![broken]),
        vec![
            CreateAction::Resolve("ckt1alice".to_string()),
            CreateAction::Fail(ApiError::InvalidCkbError(CkbFault::Transport)),
        ]
    );
}

#[test]
fn repository_is_torn_down_when_it_or_the_account_cannot_be_created() {
    let did = || "did:web5:alice".to_string();
    let no_repo = run(vec![
        unclaimed(),
        CreateEvent::RepoCreated(RepoOutcome::Failed),
        CreateEvent::Destroyed(Outcome::Done),
    ]);
    assert_eq!(no_repo[2..], [CreateAction::DestroyStore(did()), CreateAction::Fail(ApiError::RuntimeError)]);
    let no_account = run(vec![
        unclaimed(),
        CreateEvent::RepoCreated(RepoOutcome::Created(commit())),
        CreateEvent::AccountCreated(SessionOutcome::Failed),
        CreateEvent::Destroyed(Outcome::Done),
    ]);
    assert_eq!(no_account[3..], [CreateAction::DestroyStore(did()), CreateAction::Fail(ApiError::RuntimeError)]);
    assert!(announced(&no_account).is_empty());
    let no_teardown = run(vec![
        unclaimed(),
        CreateEvent::RepoCreated(RepoOutcome::Failed),
        CreateEvent::Destroyed(Outcome::Failed),
    ]);
    assert_eq!(no_teardown.last(), Some(&CreateAction::Fail(ApiError::Storage)));
}

#[test]
fn root_that_cannot_be_updated_fails_the_request_after_the_announcement() {
    let mut script = happy_script();
    script[7] = CreateEvent::RootUpdated(Outcome::Failed);
    let actions = run(script);
    assert_eq!(actions.last(), Some(&CreateAction::Fail(ApiError::Storage)));
    assert_eq!(announced(&actions).len(), 4);
}

#[test]
fn stray_answer_fails_account_creation() {
    assert_eq!(run(vec![sequenced(1)]).last(), Some(&CreateAction::Fail(ApiError::RuntimeError)));
    assert_eq!(
        run(vec![unclaimed(), CreateEvent::RootUpdated(Outcome::Done)]).last(),
        Some(&CreateAction::Fail(ApiError::RuntimeError))
    );
}

#[test]
fn placeholder_credentials_are_drawn_at_random() {
    assert_eq!(make_mock_email("abc"), "web5Mockabc@web5.com");
    let turn = create_account_start(input());
    assert_eq!(turn.next.as_ref().unwrap().step, CreateStep::AwaitDocument);
    let turn = create_account_step(turn.next.unwrap(), unclaimed());
    let turn = create_account_step(turn.next.unwrap(), CreateEvent::RepoCreated(RepoOutcome::Created(commit())));
    match turn.action {
        CreateAction::CreateAccount(opts) => {
            let email = opts.email.unwrap();
            assert!(email.starts_with("web5Mock") && email.ends_with("@web5.com"));
            let tag = &email["web5Mock".len()..email.len() - "@web5.com".len()];
            assert_eq!(tag.len(), 10);
            assert!(tag.chars().all(|c| c.is_ascii_alphanumeric()));
            let password = opts.password.unwrap();
            assert_eq!(password.len(), 16);
            assert!(password.chars().all(|c| c.is_ascii_alphanumeric()));
            assert_eq!(opts.repo_cid, "bafycommit");
        }
        other => panic!("unexpected action {other:?}"),
    }
}

fn pre_input(invite: Option<&str>) -> PreCreateAccountInput {
    PreCreateAccountInput {
        handle: "Alice.Example".to_string(),
        did: "did:web5:alice".to_string(),
        signing_key: None,
        invite_code: invite.map(|c| c.to_string()),
    }
}

fn draft() -> PreCreateAccountOutput {
    PreCreateAccountOutput {
        did: "did:web5:alice".to_string(),
        rev: "r0".to_string(),
        data: "bafydata".to_string(),
        prev: None,
        version: 3,
        un_sign_bytes: "a1b2".to_string(),
    }
}

fn pre_go(turn: PreCreateTurn, event: PreCreateEvent) -> PreCreateTurn {
    pre_create_account_step(turn.next.expect("the run has ended"), event)
}

fn taken() -> Account {
    Account {
        did: "did:web5:other".to_string(),
        handle: Some("alice.example".to_string()),
        ckb_address: None,
        email: None,
        email_confirmed: false,
        deactivated: false,
    }
}

#[test]
fn handle_must_end_with_the_domain_of_the_server() {
    let host = Some("example".to_string());
    assert!(validate_handle("alice.example", &host));
    assert!(validate_handle("example", &host));
    assert!(!validate_handle("alice.example.org", &host));
    assert!(!validate_handle("ample", &host));
    assert!(validate_handle("alice.localhost", &None));
    assert!(!validate_handle("alice.example", &None));
    assert!(validate_handle("anything", &Some("".to_string())));
}

#[test]
fn first_commit_is_drafted_after_the_checks() {
    let turn = pre_create_account_start(pre_input(Some("c")), true, Some("example".to_string()));
    assert_eq!(
        turn.action,
        PreCreateAction::NormalizeHandle(HandleCheck {
            handle: "Alice.Example".to_string(),
            did: Some("did:web5:alice".to_string()),
            allow_reserved: None,
        })
    );
    let turn = pre_go(turn, PreCreateEvent::Handle(HandleOutcome::Normalized("alice.example".to_string())));
    assert_eq!(
        turn.action,
        PreCreateAction::GetAccount(AccountQuery {
            identifier: "alice.example".to_string(),
            include_deactivated: None,
            include_taken_down: None,
        })
    );
    let turn = pre_go(turn, PreCreateEvent::Account(AccountLookup::Absent));
    assert_eq!(turn.action, PreCreateAction::PreCreateRepo("did:web5:alice".to_string()));
    let turn = pre_go(turn, PreCreateEvent::RepoDrafted(DraftOutcome::Drafted(draft())));
    assert!(turn.next.is_none());
    assert_eq!(turn.action, PreCreateAction::Succeed(draft()));
}

#[test]
fn failed_check_is_answered_without_saying_which() {
    let failed = PreCreateAction::Fail(ApiError::RuntimeError);
    let turn = pre_create_account_start(pre_input(None), true, Some("example".to_string()));
    assert!(turn.next.is_none());
    assert_eq!(turn.action, failed);
    let start = || pre_create_account_start(pre_input(None), false, Some("example".to_string()));
    assert!(start().next.is_some());
    assert_eq!(
        pre_go(start(), PreCreateEvent::Handle(HandleOutcome::Failed(ApiError::InvalidHandle))).action,
        failed
    );
    assert_eq!(
        pre_go(start(), PreCreateEvent::Handle(HandleOutcome::Normalized("alice.elsewhere".to_string()))).action,
        failed
    );
    let looked_up = || pre_go(start(), PreCreateEvent::Handle(HandleOutcome::Normalized("alice.example".to_string())));
    assert_eq!(pre_go(looked_up(), PreCreateEvent::Account(AccountLookup::Found(taken()))).action, failed);
    assert_eq!(pre_go(looked_up(), PreCreateEvent::Account(AccountLookup::Failed)).action, failed);
}

#[test]
fn draft_that_fails_is_torn_down() {
    let turn = pre_create_account_start(pre_input(None), false, None);
    let turn = pre_go(turn, PreCreateEvent::Handle(HandleOutcome::Normalized("alice.localhost".to_string())));
    let turn = pre_go(turn, PreCreateEvent::Account(AccountLookup::Absent));
    let turn = pre_go(turn, PreCreateEvent::RepoDrafted(DraftOutcome::Failed));
    assert_eq!(turn.action, PreCreateAction::DestroyStore("did:web5:alice".to_string()));
    let state = turn.next.clone().unwrap();
    assert_eq!(
        pre_create_account_step(state.clone(), PreCreateEvent::Destroyed(Outcome::Done)).action,
        PreCreateAction::Fail(ApiError::RuntimeError)
    );
    assert_eq!(
        pre_create_account_step(state, PreCreateEvent::Destroyed(Outcome::Failed)).action,
        PreCreateAction::Fail(ApiError::Storage)
    );
}

#[test]
fn particulars_are_checked_in_order() {
    let host = Some("example".to_string());
    let normalized = || HandleOutcome::Normalized("alice.example".to_string());
    assert_eq!(
        validate_inputs_for_local_pds(false, &host, pre_input(None), normalized(), AccountLookup::Absent),
        Ok(TransformedWeb5CreateAccountInput {
            handle: "alice.example".to_string(),
            did: "did:web5:alice".to_string(),
            invite_code: None,
        })
    );
    assert_eq!(
        validate_inputs_for_local_pds(true, &host, pre_input(Some("c")), normalized(), AccountLookup::Absent),
        Ok(TransformedWeb5CreateAccountInput {
            handle: "alice.example".to_string(),
            did: "did:web5:alice".to_string(),
            invite_code: Some("c".to_string()),
        })
    );
    assert_eq!(
        validate_inputs_for_local_pds(
            true,
            &host,
            pre_input(None),
            HandleOutcome::Failed(ApiError::InvalidHandle),
            AccountLookup::Found(taken())
        ),
        Err(ApiError::InvalidInviteCode)
    );
    assert_eq!(
        validate_inputs_for_local_pds(
            false,
            &host,
            pre_input(None),
            HandleOutcome::Failed(ApiError::HandleNotAvailable),
            AccountLookup::Absent
        ),
        Err(ApiError::HandleNotAvailable)
    );
    assert_eq!(
        validate_inputs_for_local_pds(
            false,
            &None,
            pre_input(None),
            normalized(),
            AccountLookup::Found(taken())
        ),
        Err(ApiError::InvalidHandle)
    );
    assert_eq!(
        validate_inputs_for_local_pds(false, &host, pre_input(None), normalized(), AccountLookup::Found(taken())),
        Err(ApiError::HandleNotAvailable)
    );
    assert_eq!(
        validate_inputs_for_local_pds(false, &host, pre_input(None), normalized(), AccountLookup::Failed),
        Err(ApiError::Storage)
    );
}
