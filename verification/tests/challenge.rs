use web5_pds::challenge::{
    challenge_message, check_challenge, check_challenge_by, check_freshness, contains_statement,
    extract_timestamp, freshness_at, generate_challenge, statement_check, timestamp_check,
    verify_challenge, ChallengeError,
};
use web5_pds::lexicon::{
    IndexActionInputRef, PreIndexActionInputRef, RefCreateSessionIndex, RefDeleteAccountIndex,
};

fn sample(timestamp: u64, statement: &str) -> String {
    challenge_message("pds.example", "ckt1qyqexample", "alice.example", timestamp, statement)
}

#[test]
fn challenge_text_is_the_fixed_template() {
    assert_eq!(
        sample(1700000000, "Create session"),
        "Web5 Login\nDomain: pds.example\nAddress: ckt1qyqexample\nHandle: alice.example\nTimestamp: 1700000000\nStatement: Create session"
    );
}

#[test]
fn challenge_text_writes_zero_and_the_largest_timestamp() {
    assert!(sample(0, "s").contains("\nTimestamp: 0\n"));
    assert!(sample(u64::MAX, "s").contains("\nTimestamp: 18446744073709551615\n"));
}

#[test]
fn timestamp_of_a_generated_challenge_comes_back() {
    for t in [0u64, 7, 10, 99, 1700000000, u64::MAX] {
        assert_eq!(extract_timestamp(&sample(t, "Delete account")), Ok(t));
    }
}

#[test]
fn timestamp_line_is_read_with_trimming_and_plus_sign() {
    assert_eq!(extract_timestamp("Timestamp: 123"), Ok(123));
    assert_eq!(extract_timestamp("a\nTimestamp:   42  \nb"), Ok(42));
    assert_eq!(extract_timestamp("Timestamp: +7"), Ok(7));
    assert_eq!(extract_timestamp("x\r\nTimestamp: 5\r\ny"), Ok(5));
    assert_eq!(extract_timestamp("Timestamp: 5\r"), Ok(5));
    assert_eq!(extract_timestamp("Timestamp: \u{3000}9\u{2003}"), Ok(9));
}

#[test]
fn timestamp_label_is_taken_off_once() {
    assert_eq!(
        extract_timestamp("Timestamp: Timestamp: 7"),
        Err(ChallengeError::TimestampInvalid)
    );
    assert_eq!(
        extract_timestamp("Timestamp: Timestamp: Timestamp: 18446744073709551615"),
        Err(ChallengeError::TimestampInvalid)
    );
    assert_eq!(
        extract_timestamp("Timestamp: Timestamp: 7\nTimestamp: 8"),
        Err(ChallengeError::TimestampInvalid)
    );
    assert_eq!(extract_timestamp("Timestamp: 7 Timestamp: "), Err(ChallengeError::TimestampInvalid));
    assert_eq!(extract_timestamp("Timestamp:  7"), Ok(7));
}

#[test]
fn first_timestamp_line_decides() {
    assert_eq!(extract_timestamp("Timestamp: 1\nTimestamp: 2"), Ok(1));
    assert_eq!(
        extract_timestamp("Timestamp: x\nTimestamp: 2"),
        Err(ChallengeError::TimestampInvalid)
    );
}

#[test]
fn missing_timestamp_is_reported() {
    assert_eq!(extract_timestamp(""), Err(ChallengeError::TimestampMissing));
    assert_eq!(extract_timestamp("Web5 Login\nDomain: x"), Err(ChallengeError::TimestampMissing));
    assert_eq!(extract_timestamp(" Timestamp: 5"), Err(ChallengeError::TimestampMissing));
    assert_eq!(extract_timestamp("Timestamp:5"), Err(ChallengeError::TimestampMissing));
    assert_eq!(extract_timestamp("timestamp: 5"), Err(ChallengeError::TimestampMissing));
}

#[test]
fn unreadable_timestamp_is_reported() {
    for text in [
        "Timestamp: ",
        "Timestamp: abc",
        "Timestamp: -1",
        "Timestamp: +",
        "Timestamp: 1 2",
        "Timestamp: 12a",
        "Timestamp: 18446744073709551616",
        "Timestamp: 99999999999999999999999",
        "Timestamp: \u{0661}",
    ] {
        assert_eq!(extract_timestamp(text), Err(ChallengeError::TimestampInvalid), "{text}");
    }
}

#[test]
fn freshness_window_is_120_seconds() {
    assert!(check_freshness(1000, 1000));
    assert!(check_freshness(1119, 1000));
    assert!(!check_freshness(1120, 1000));
    assert!(!check_freshness(u64::MAX, 0));
    assert!(check_freshness(119, 0));
    assert!(!check_freshness(120, 0));
}

#[test]
fn future_timestamp_counts_as_fresh() {
    assert!(check_freshness(1000, 1001));
    assert!(check_freshness(0, u64::MAX));
}

#[test]
fn freshness_needs_a_clock_reading() {
    assert_eq!(freshness_at(None, 5), Err(ChallengeError::ClockUnavailable));
    assert_eq!(freshness_at(Some(200), 5), Ok(false));
    assert_eq!(freshness_at(Some(100), 5), Ok(true));
}

#[test]
fn local_clock_judges_old_and_future_timestamps() {
    assert_eq!(timestamp_check(0), Ok(false));
    assert_eq!(timestamp_check(u64::MAX), Ok(true));
}

#[test]
fn statement_is_looked_for_line_by_line() {
    assert!(contains_statement("a\nStatement: Create session", "Create session"));
    assert!(contains_statement("Create session", "Create session"));
    assert!(contains_statement("xxCreate sessionyy\nz", "Create session"));
    assert!(!contains_statement("Create\nsession", "Create session"));
    assert!(!contains_statement("Create\n session", "Create\n session"));
    assert!(!contains_statement("create session", "Create session"));
    assert!(!contains_statement("", "Create session"));
    assert!(contains_statement("abc", ""));
    assert!(!contains_statement("", ""));
    assert!(!contains_statement("ab\r\ncd", "ab\r"));
    assert!(contains_statement("ab\r", "ab\r"));
}

#[test]
fn statement_check_never_answers_false() {
    let create = IndexActionInputRef::CreateSessionIndex(RefCreateSessionIndex {});
    let delete = IndexActionInputRef::DeleteAccountIndex(RefDeleteAccountIndex {});
    assert_eq!(statement_check(&sample(1, "Create session"), &create), Ok(true));
    assert_eq!(
        statement_check(&sample(1, "Create session"), &delete),
        Err(ChallengeError::StatementMissing)
    );
    assert_eq!(statement_check(&sample(1, "Delete account"), &delete), Ok(true));
}

#[test]
fn actions_state_themselves() {
    assert_eq!(
        IndexActionInputRef::CreateSessionIndex(RefCreateSessionIndex {}).statement(),
        "Create session"
    );
    assert_eq!(
        IndexActionInputRef::DeleteAccountIndex(RefDeleteAccountIndex {}).statement(),
        "Delete account"
    );
    assert_eq!(
        PreIndexActionInputRef::CreateSessionIndex(RefCreateSessionIndex {}).statement(),
        "Create session"
    );
    assert_eq!(
        PreIndexActionInputRef::DeleteAccountIndex(RefDeleteAccountIndex {}).statement(),
        "Delete account"
    );
}

#[test]
fn challenge_is_accepted_iff_fresh_and_stated() {
    let message = sample(1000, "Create session");
    assert_eq!(check_challenge(&message, "Create session", 1000), Ok(()));
    assert_eq!(check_challenge(&message, "Create session", 1119), Ok(()));
    assert_eq!(
        check_challenge(&message, "Create session", 1120),
        Err(ChallengeError::Expired)
    );
    assert_eq!(
        check_challenge(&message, "Delete account", 1000),
        Err(ChallengeError::StatementMissing)
    );
    assert_eq!(
        check_challenge(&message, "Delete account", 5000),
        Err(ChallengeError::Expired)
    );
    assert_eq!(check_challenge(&message, "Create session", 10), Ok(()));
    assert_eq!(
        check_challenge("Statement: Create session", "Create session", 1000),
        Err(ChallengeError::TimestampMissing)
    );
}

#[test]
fn challenge_without_timestamp_fails_before_the_clock_is_looked_at() {
    assert_eq!(
        check_challenge_by("no time here", "x", None),
        Err(ChallengeError::TimestampMissing)
    );
    assert_eq!(
        check_challenge_by(&sample(5, "x"), "x", None),
        Err(ChallengeError::ClockUnavailable)
    );
    assert_eq!(check_challenge_by(&sample(5, "x"), "x", Some(6)), Ok(()));
}

#[test]
fn generated_challenge_is_accepted_by_the_local_clock() {
    let index = PreIndexActionInputRef::DeleteAccountIndex(RefDeleteAccountIndex {});
    let message = generate_challenge(
        "pds.example".to_string(),
        "ckt1qyqexample".to_string(),
        "alice.example".to_string(),
        &index,
    )
    .unwrap();
    assert!(message.starts_with(
        "Web5 Login\nDomain: pds.example\nAddress: ckt1qyqexample\nHandle: alice.example\nTimestamp: "
    ));
    assert!(message.ends_with("\nStatement: Delete account"));
    let made = extract_timestamp(&message).unwrap();
    assert!(made > 1_600_000_000);
    assert_eq!(verify_challenge(&message, "Delete account"), Ok(()));
    assert_eq!(
        verify_challenge(&message, "Create session"),
        Err(ChallengeError::StatementMissing)
    );
    assert_eq!(
        verify_challenge(&sample(1, "Delete account"), "Delete account"),
        Err(ChallengeError::Expired)
    );
}

#[test]
fn challenge_errors_read_as_before() {
    assert_eq!(ChallengeError::TimestampMissing.message(), "Can't find Timestamp in message!");
    assert_eq!(ChallengeError::TimestampInvalid.message(), "Timestamp parse error");
    assert_eq!(ChallengeError::StatementMissing.message(), "Statement check error");
    assert_eq!(
        ChallengeError::ClockUnavailable.message(),
        "Can't get unix timestamp from local"
    );
}
