use web5_pds::collab::{
    AccountEvent, AccountStatus, CommitEvent, Emission, EventKind, IdentityEvent, SyncEvent,
};
use web5_pds::commit::{AppliedCommit, Commit};
use web5_pds::sequencer::{about, holds, EventLog, Sequenced, SequencerError};

fn commit(rev: &str) -> AppliedCommit {
    AppliedCommit {
        cid: format!("bafy{rev}"),
        commit: Commit {
            did: "did:web5:alice".to_string(),
            rev: rev.to_string(),
            data: "bafydata".to_string(),
            prev: None,
            version: 3,
            sig: vec![1],
        },
    }
}

fn entries(log: &EventLog) -> Vec<Sequenced> {
    (0..log.len()).map(|i| log.get(i).clone()).collect()
}

fn kinds(log: &EventLog) -> Vec<(u64, EventKind)> {
    entries(log).iter().map(|e| (e.seq, e.event.kind())).collect()
}

#[test]
fn new_log_is_empty() {
    let log = EventLog::new();
    assert_eq!(log.len(), 0);
}

#[test]
fn sequence_numbers_grow_with_every_event() {
    let mut log = EventLog::new();
    let alice = || "did:web5:alice".to_string();
    assert_eq!(log.emit_identity(alice(), Some("alice.example".to_string())), Ok(1));
    assert_eq!(log.emit_account_status(alice(), AccountStatus::Active), Ok(2));
    assert_eq!(log.emit_commit(alice(), commit("r0")), Ok(3));
    assert_eq!(log.emit_sync(alice(), commit("r0")), Ok(4));
    assert_eq!(
        kinds(&log),
        vec![
            (1, EventKind::Identity),
            (2, EventKind::AccountStatus),
            (3, EventKind::Commit),
            (4, EventKind::Sync),
        ]
    );
    assert_eq!(
        entries(&log)[0],
        Sequenced {
            seq: 1,
            event: Emission::Identity(IdentityEvent {
                did: alice(),
                handle: Some("alice.example".to_string()),
            }),
        }
    );
    assert_eq!(
        log.append(Emission::Commit(CommitEvent { did: alice(), commit: commit("r1") })),
        Ok(5)
    );
    assert_eq!(log.len(), 5);
}

#[test]
fn compaction_drops_the_events_of_one_identity_but_the_excepted() {
    let mut log = EventLog::new();
    let alice = || "did:web5:alice".to_string();
    let bob = || "did:web5:bob".to_string();
    log.emit_identity(alice(), None).unwrap();
    log.emit_identity(bob(), None).unwrap();
    log.emit_commit(alice(), commit("r0")).unwrap();
    log.emit_sync(bob(), commit("r0")).unwrap();
    log.emit_sync(alice(), commit("r0")).unwrap();
    let deleted = log.emit_account_status(alice(), AccountStatus::Deleted).unwrap();
    assert_eq!(deleted, 6);
    log.compact(&alice(), &vec![deleted]);
    assert_eq!(
        kinds(&log),
        vec![(2, EventKind::Identity), (4, EventKind::Sync), (6, EventKind::AccountStatus)]
    );
    assert_eq!(
        entries(&log)[2].event,
        Emission::Account(AccountEvent { did: alice(), status: AccountStatus::Deleted })
    );
    assert_eq!(log.emit_identity(bob(), None), Ok(7));
    log.compact(&alice(), &Vec::new());
    assert_eq!(
        kinds(&log),
        vec![(2, EventKind::Identity), (4, EventKind::Sync), (7, EventKind::Identity)]
    );
    log.compact(&"did:web5:nobody".to_string(), &Vec::new());
    assert_eq!(log.len(), 3);
    log.compact(&bob(), &vec![4, 99]);
    assert_eq!(kinds(&log), vec![(4, EventKind::Sync)]);
    assert_eq!(log.emit_identity(bob(), None), Ok(8));
}

#[test]
fn events_are_about_their_identity() {
    let alice = "did:web5:alice".to_string();
    let bob = "did:web5:bob".to_string();
    let events = [
        Emission::Identity(IdentityEvent { did: alice.clone(), handle: None }),
        Emission::Account(AccountEvent { did: alice.clone(), status: AccountStatus::Active }),
        Emission::Commit(CommitEvent { did: alice.clone(), commit: commit("r0") }),
        Emission::Sync(SyncEvent { did: alice.clone(), commit: commit("r0") }),
    ];
    for event in events.iter() {
        assert!(about(event, &alice));
        assert!(!about(event, &bob));
    }
    assert!(holds(&vec![1, 5, 9], 5));
    assert!(!holds(&vec![1, 5, 9], 4));
    assert!(!holds(&Vec::new(), 0));
}

#[test]
fn log_whose_numbers_are_used_up_takes_nothing() {
    let mut log = EventLog::starting_at(u64::MAX - 1);
    assert_eq!(log.emit_identity("did:web5:alice".to_string(), None), Ok(u64::MAX - 1));
    assert_eq!(
        log.emit_account_status("did:web5:alice".to_string(), AccountStatus::Active),
        Err(SequencerError::Exhausted)
    );
    assert_eq!(log.emit_commit("did:web5:alice".to_string(), commit("r0")), Err(SequencerError::Exhausted));
    assert_eq!(log.emit_sync("did:web5:alice".to_string(), commit("r0")), Err(SequencerError::Exhausted));
    assert_eq!(kinds(&log), vec![(u64::MAX - 1, EventKind::Identity)]);
}
