//! The challenge that proves control of a key held outside the server.
//!
//! A challenge is a short text that binds a domain, a ledger address, a
//! handle, the time it was made and a statement of the action it is for.
//! The key holder signs it; the server then checks that it is fresh and that
//! it states the action that is asked for.

use crate::lexicon::{IndexActionInputRef, PreIndexActionInputRef};
use crate::text::{
    chars_of, contains, decimal_of, decimal_text, has_prefix, is_prefix, lemma_decimal_round_trip,
    lemma_decimal_text_writes, lemma_digits_are_plain, lemma_lines_of_joined,
    lemma_single_line_joined,
    lemma_lines_of_single, lines, occurs_at, occurs_in, parse_decimal, parse_u64, single_line,
    split_lines, string_of, strip_cr, subvec, trim, trimmed, views_of,
};
use vstd::prelude::*;

verus! {

/// The number of seconds for which a challenge stays fresh.
pub const FRESHNESS_WINDOW: u64 = 120;

/// Why a challenge could not be made or read.
#[derive(Clone, Copy, Debug, PartialEq, Eq, Structural)]
pub enum ChallengeError {
    /// The message has no line that begins with `Timestamp: `.
    TimestampMissing,
    /// The first timestamp line does not write an unsigned 64-bit number.
    TimestampInvalid,
    /// No line of the message holds the expected statement.
    StatementMissing,
    /// The timestamp lies outside the freshness window.
    Expired,
    /// The local clock stands before the Unix epoch.
    ClockUnavailable,
}

impl DeepView for ChallengeError {
    type V = ChallengeError;

    open spec fn deep_view(&self) -> ChallengeError {
        *self
    }
}

impl ChallengeError {
    /// How the error reads in a log or a response.
    pub open spec fn message_text(self) -> Seq<char> {
        match self {
            ChallengeError::TimestampMissing => "Can't find Timestamp in message!"@,
            ChallengeError::TimestampInvalid => "Timestamp parse error"@,
            ChallengeError::StatementMissing => "Statement check error"@,
            ChallengeError::Expired => "Sign message timeout"@,
            ChallengeError::ClockUnavailable => "Can't get unix timestamp from local"@,
        }
    }

    /// How the error reads in a log or a response.
    pub fn message(&self) -> (out: String)
        ensures
            out@ == self.message_text(),
    {
        match self {
            ChallengeError::TimestampMissing => String::from_str("Can't find Timestamp in message!"),
            ChallengeError::TimestampInvalid => String::from_str("Timestamp parse error"),
            ChallengeError::StatementMissing => String::from_str("Statement check error"),
            ChallengeError::Expired => String::from_str("Sign message timeout"),
            ChallengeError::ClockUnavailable => String::from_str(
                "Can't get unix timestamp from local",
            ),
        }
    }
}

/// What a timestamp line begins with.
pub open spec fn timestamp_prefix() -> Seq<char> {
    "Timestamp: "@
}

/// The text of the challenge for the given bindings, made at `timestamp`
/// seconds after the Unix epoch.
pub open spec fn challenge_text(
    domain: Seq<char>,
    address: Seq<char>,
    handle: Seq<char>,
    timestamp: u64,
    statement: Seq<char>,
) -> Seq<char> {
    "Web5 Login\nDomain: "@ + domain + "\nAddress: "@ + address + "\nHandle: "@ + handle
        + "\nTimestamp: "@ + decimal_text(timestamp as nat) + "\nStatement: "@ + statement
}

/// The number that a timestamp line writes after its prefix, white space
/// around it set aside. The prefix is taken off once: a line that goes on
/// with anything but a number writes none.
pub open spec fn timestamp_of_line(line: Seq<char>) -> Option<u64> {
    parse_u64(trim(line.skip(timestamp_prefix().len() as int)))
}

/// The timestamp that the first timestamp line among `ls` writes. Later
/// timestamp lines are not looked at, whatever the first one holds.
pub open spec fn timestamp_in(ls: Seq<Seq<char>>) -> Result<u64, ChallengeError>
    decreases ls.len(),
{
    if ls.len() == 0 {
        Err(ChallengeError::TimestampMissing)
    } else if is_prefix(timestamp_prefix(), ls[0]) {
        match timestamp_of_line(ls[0]) {
            Some(t) => Ok(t),
            None => Err(ChallengeError::TimestampInvalid),
        }
    } else {
        timestamp_in(ls.skip(1))
    }
}

/// The timestamp that `message` embeds.
pub open spec fn embedded_timestamp(message: Seq<char>) -> Result<u64, ChallengeError> {
    timestamp_in(lines(message))
}

/// Whether a challenge made at `timestamp` is fresh at `now`: fewer than 120
/// seconds have passed. The difference saturates at zero, so a timestamp
/// that lies ahead of `now` counts as fresh.
pub open spec fn is_fresh(now: u64, timestamp: u64) -> bool {
    (if now >= timestamp {
        now - timestamp
    } else {
        0
    }) < FRESHNESS_WINDOW
}

/// Whether some line among `ls` holds `statement`.
pub open spec fn some_line_holds(ls: Seq<Seq<char>>, statement: Seq<char>) -> bool {
    exists|i: int| 0 <= i < ls.len() && occurs_in(statement, #[trigger] ls[i])
}

/// Whether some line of `message` holds `statement` verbatim.
pub open spec fn states(message: Seq<char>, statement: Seq<char>) -> bool {
    some_line_holds(lines(message), statement)
}

/// What checking a signed challenge at `now` gives: the first of a missing
/// or unreadable timestamp, a timestamp outside the window and a missing
/// statement, or acceptance.
pub open spec fn challenge_verdict(message: Seq<char>, statement: Seq<char>, now: u64) -> Result<
    (),
    ChallengeError,
> {
    match embedded_timestamp(message) {
        Err(e) => Err(e),
        Ok(timestamp) => if !is_fresh(now, timestamp) {
            Err(ChallengeError::Expired)
        } else if !states(message, statement) {
            Err(ChallengeError::StatementMissing)
        } else {
            Ok(())
        },
    }
}

/// What checking a signed challenge gives for a reading of the clock. The
/// timestamp is read before the clock is looked at, so a message without a
/// readable timestamp fails on that account even where the clock gave no
/// reading.
pub open spec fn challenge_verdict_by(
    message: Seq<char>,
    statement: Seq<char>,
    now: Option<u64>,
) -> Result<(), ChallengeError> {
    match embedded_timestamp(message) {
        Err(e) => Err(e),
        Ok(timestamp) => match now {
            None => Err(ChallengeError::ClockUnavailable),
            Some(t) => challenge_verdict(message, statement, t),
        },
    }
}

/// `std::time::SystemTime::now`, as whole seconds since the Unix epoch;
/// `None` where the clock stands before the epoch.
#[verifier::external_body]
pub(crate) fn unix_now() -> Option<u64> {
    std::time::SystemTime::now().duration_since(std::time::UNIX_EPOCH).ok().map(|d| d.as_secs())
}

/// The timestamp that `message` embeds.
pub fn extract_timestamp(message: &str) -> (out: Result<u64, ChallengeError>)
    ensures
        out == embedded_timestamp(message@),
{
    let text = chars_of(message);
    let ls = split_lines(&text);
    let prefix = chars_of("Timestamp: ");
    let mut i: usize = 0;
    assert(views_of(ls@).skip(0) =~= views_of(ls@));
    while i < ls.len()
        invariant
            i <= ls.len(),
            prefix@ == timestamp_prefix(),
            views_of(ls@) == lines(message@),
            embedded_timestamp(message@) == timestamp_in(views_of(ls@).skip(i as int)),
        decreases ls.len() - i,
    {
        let ghost rest = views_of(ls@).skip(i as int);
        assert(rest[0] == ls@[i as int]@);
        assert(rest.skip(1) =~= views_of(ls@).skip(i + 1));
        if has_prefix(&ls[i], &prefix) {
            let line = &ls[i];
            assert(line@.subrange(prefix@.len() as int, line@.len() as int) =~= line@.skip(
                prefix@.len() as int,
            ));
            let digits = trimmed(&subvec(line, prefix.len(), line.len()));
            return match parse_decimal(&digits) {
                Some(t) => Ok(t),
                None => Err(ChallengeError::TimestampInvalid),
            };
        }
        i += 1;
    }
    Err(ChallengeError::TimestampMissing)
}

/// Whether a challenge made at `timestamp` is fresh at `now`.
pub fn check_freshness(now: u64, timestamp: u64) -> (out: bool)
    ensures
        out == is_fresh(now, timestamp),
{
    now.saturating_sub(timestamp) < FRESHNESS_WINDOW
}

/// Places a reading of the clock: whether a challenge made at `timestamp`
/// is fresh at that reading.
pub fn freshness_at(now: Option<u64>, timestamp: u64) -> (out: Result<bool, ChallengeError>)
    ensures
        out == match now {
            Some(n) => Ok::<bool, ChallengeError>(is_fresh(n, timestamp)),
            None => Err(ChallengeError::ClockUnavailable),
        },
{
    match now {
        Some(n) => Ok(check_freshness(n, timestamp)),
        None => Err(ChallengeError::ClockUnavailable),
    }
}

/// Whether a challenge made at `timestamp` is fresh by the local clock.
pub fn timestamp_check(timestamp: u64) -> (out: Result<bool, ChallengeError>)
    ensures
        out matches Ok(fresh) ==> exists|now: u64| fresh == is_fresh(now, timestamp),
        out matches Err(e) ==> e == ChallengeError::ClockUnavailable,
{
    let now = unix_now();
    let out = freshness_at(now, timestamp);
    proof {
        if let Some(n) = now {
            assert(out->Ok_0 == is_fresh(n, timestamp));
        }
    }
    out
}

/// Whether some line of `message` holds `statement` verbatim.
pub fn contains_statement(message: &str, statement: &str) -> (out: bool)
    ensures
        out == states(message@, statement@),
{
    let text = chars_of(message);
    let needle = chars_of(statement);
    let ls = split_lines(&text);
    let mut i: usize = 0;
    while i < ls.len()
        invariant
            i <= ls.len(),
            views_of(ls@) == lines(message@),
            needle@ == statement@,
            forall|k: int| 0 <= k < i ==> !occurs_in(statement@, #[trigger] views_of(ls@)[k]),
        decreases ls.len() - i,
    {
        assert(views_of(ls@)[i as int] == ls@[i as int]@);
        if contains(&ls[i], &needle) {
            return true;
        }
        i += 1;
    }
    false
}

/// Checks that some line of `message` holds the statement of the action
/// `index`. The check never answers `Ok(false)`: a missing statement is an
/// error.
pub fn statement_check(message: &str, index: &IndexActionInputRef) -> (out: Result<
    bool,
    ChallengeError,
>)
    ensures
        out == if states(message@, index@.statement_text()) {
            Ok::<bool, ChallengeError>(true)
        } else {
            Err(ChallengeError::StatementMissing)
        },
{
    let statement = index.statement();
    if contains_statement(message, statement.as_str()) {
        Ok(true)
    } else {
        Err(ChallengeError::StatementMissing)
    }
}

/// Checks a signed challenge at the time `now`: its timestamp must be
/// readable and fresh, and one of its lines must hold `statement`.
pub fn check_challenge(message: &str, statement: &str, now: u64) -> (out: Result<
    (),
    ChallengeError,
>)
    ensures
        out == challenge_verdict(message@, statement@, now),
        out is Ok <==> (embedded_timestamp(message@) matches Ok(t) && is_fresh(now, t) && states(
            message@,
            statement@,
        )),
{
    match extract_timestamp(message) {
        Err(e) => Err(e),
        Ok(timestamp) => {
            if !check_freshness(now, timestamp) {
                Err(ChallengeError::Expired)
            } else if !contains_statement(message, statement) {
                Err(ChallengeError::StatementMissing)
            } else {
                Ok(())
            }
        },
    }
}

/// Checks a signed challenge against a reading of the clock.
pub fn check_challenge_by(message: &str, statement: &str, now: Option<u64>) -> (out: Result<
    (),
    ChallengeError,
>)
    ensures
        out == challenge_verdict_by(message@, statement@, now),
{
    match extract_timestamp(message) {
        Err(e) => Err(e),
        Ok(timestamp) => match now {
            None => Err(ChallengeError::ClockUnavailable),
            Some(t) => {
                if !check_freshness(t, timestamp) {
                    Err(ChallengeError::Expired)
                } else if !contains_statement(message, statement) {
                    Err(ChallengeError::StatementMissing)
                } else {
                    Ok(())
                }
            },
        },
    }
}

/// Checks a signed challenge by the local clock.
pub fn verify_challenge(message: &str, statement: &str) -> (out: Result<(), ChallengeError>)
    ensures
        exists|now: Option<u64>| out == #[trigger] challenge_verdict_by(message@, statement@, now),
        embedded_timestamp(message@) matches Err(e) ==> out == Err::<(), ChallengeError>(e),
        out is Ok ==> states(message@, statement@),
{
    let now = unix_now();
    let out = check_challenge_by(message, statement, now);
    assert(out == challenge_verdict_by(message@, statement@, now));
    out
}

/// The challenge for the given bindings, made at `timestamp`.
pub fn challenge_message(
    domain: &str,
    address: &str,
    handle: &str,
    timestamp: u64,
    statement: &str,
) -> (out: String)
    ensures
        out@ == challenge_text(domain@, address@, handle@, timestamp, statement@),
{
    let mut out = String::from_str("Web5 Login\nDomain: ");
    out.append(domain);
    out.append("\nAddress: ");
    out.append(address);
    out.append("\nHandle: ");
    out.append(handle);
    out.append("\nTimestamp: ");
    let digits = string_of(&decimal_of(timestamp));
    out.append(digits.as_str());
    out.append("\nStatement: ");
    out.append(statement);
    out
}

/// Places a reading of the clock: the challenge made at that reading.
pub fn challenge_at(
    now: Option<u64>,
    domain: &str,
    address: &str,
    handle: &str,
    statement: &str,
) -> (out: Result<String, ChallengeError>)
    ensures
        now is None ==> out == Err::<String, ChallengeError>(ChallengeError::ClockUnavailable),
        now matches Some(t) ==> out matches Ok(m) && m@ == challenge_text(
            domain@,
            address@,
            handle@,
            t,
            statement@,
        ),
{
    match now {
        Some(t) => Ok(challenge_message(domain, address, handle, t, statement)),
        None => Err(ChallengeError::ClockUnavailable),
    }
}

/// A challenge for the action `index`, made now by the local clock.
pub fn generate_challenge(
    domain: String,
    ckb_addr: String,
    handle: String,
    index: &PreIndexActionInputRef,
) -> (out: Result<String, ChallengeError>)
    ensures
        out matches Ok(m) ==> exists|t: u64|
            m@ == #[trigger] challenge_text(domain@, ckb_addr@, handle@, t, index@.statement_text()),
        out matches Err(e) ==> e == ChallengeError::ClockUnavailable,
{
    let statement = index.statement();
    let now = unix_now();
    let out = challenge_at(
        now,
        domain.as_str(),
        ckb_addr.as_str(),
        handle.as_str(),
        statement.as_str(),
    );
    proof {
        if let Some(t) = now {
            assert(out->Ok_0@ == challenge_text(
                domain@,
                ckb_addr@,
                handle@,
                t,
                index@.statement_text(),
            ));
        }
    }
    out
}

/// Within the window, freshness is the plain difference: a challenge whose
/// timestamp does not lie ahead of the time of checking is accepted exactly
/// when fewer than 120 seconds have passed since it was made and one of its
/// lines holds the expected statement.
pub proof fn lemma_accepted_iff_recent_and_stated(
    message: Seq<char>,
    statement: Seq<char>,
    now: u64,
    timestamp: u64,
)
    requires
        embedded_timestamp(message) == Ok::<u64, ChallengeError>(timestamp),
        timestamp <= now,
    ensures
        challenge_verdict(message, statement, now) is Ok <==> (now - timestamp < 120 && states(
            message,
            statement,
        )),
{
}

/// A timestamp that lies ahead of the time of checking is always fresh.
pub proof fn lemma_future_timestamp_is_fresh(now: u64, timestamp: u64)
    requires
        timestamp > now,
    ensures
        is_fresh(now, timestamp),
{
}

/// Lines that do not begin with the timestamp prefix are passed over.
pub proof fn lemma_timestamp_in_passes_over(ls: Seq<Seq<char>>, k: int)
    requires
        0 <= k <= ls.len(),
        forall|i: int| 0 <= i < k ==> !is_prefix(timestamp_prefix(), #[trigger] ls[i]),
    ensures
        timestamp_in(ls) == timestamp_in(ls.skip(k)),
    decreases k,
{
    if k == 0 {
        assert(ls.skip(0) =~= ls);
    } else {
        lemma_timestamp_in_passes_over(ls, k - 1);
        let rest = ls.skip(k - 1);
        assert(rest[0] == ls[k - 1]);
        assert(rest.skip(1) =~= ls.skip(k));
    }
}

/// The labels of a challenge, each a line of its own, and how the fixed
/// parts of the template are made of them.
proof fn lemma_template_parts()
    ensures
        "Web5 Login\nDomain: "@ == "Web5 Login"@ + seq!['\n'] + "Domain: "@,
        "\nAddress: "@ == seq!['\n'] + "Address: "@,
        "\nHandle: "@ == seq!['\n'] + "Handle: "@,
        "\nTimestamp: "@ == seq!['\n'] + "Timestamp: "@,
        "\nStatement: "@ == seq!['\n'] + "Statement: "@,
        single_line("Web5 Login"@),
        single_line("Domain: "@),
        single_line("Address: "@),
        single_line("Handle: "@),
        single_line("Timestamp: "@),
        single_line("Statement: "@),
        "Web5 Login"@.len() == 10 && "Web5 Login"@[0] == 'W' && "Web5 Login"@.last() == 'n',
        "Domain: "@.len() == 8 && "Domain: "@[0] == 'D',
        "Address: "@.len() == 9 && "Address: "@[0] == 'A',
        "Handle: "@.len() == 8 && "Handle: "@[0] == 'H',
        "Timestamp: "@.len() == 11 && "Timestamp: "@[0] == 'T',
        "Statement: "@.len() == 11,
{
    reveal_strlit("Web5 Login\nDomain: ");
    reveal_strlit("\nAddress: ");
    reveal_strlit("\nHandle: ");
    reveal_strlit("\nTimestamp: ");
    reveal_strlit("\nStatement: ");
    reveal_strlit("Web5 Login");
    reveal_strlit("Domain: ");
    reveal_strlit("Address: ");
    reveal_strlit("Handle: ");
    reveal_strlit("Timestamp: ");
    reveal_strlit("Statement: ");
    assert("Web5 Login\nDomain: "@ =~= "Web5 Login"@ + seq!['\n'] + "Domain: "@);
    assert("\nAddress: "@ =~= seq!['\n'] + "Address: "@);
    assert("\nHandle: "@ =~= seq!['\n'] + "Handle: "@);
    assert("\nTimestamp: "@ =~= seq!['\n'] + "Timestamp: "@);
    assert("\nStatement: "@ =~= seq!['\n'] + "Statement: "@);
}

/// A challenge, line by line: each labelled line, a line feed, and what
/// follows.
proof fn lemma_challenge_by_lines(
    domain: Seq<char>,
    address: Seq<char>,
    handle: Seq<char>,
    timestamp: u64,
    statement: Seq<char>,
)
    ensures
        challenge_text(domain, address, handle, timestamp, statement) == "Web5 Login"@ + seq![
            '\n',
        ] + (("Domain: "@ + domain) + seq!['\n'] + (("Address: "@ + address) + seq!['\n'] + ((
            "Handle: "@ + handle) + seq!['\n'] + (("Timestamp: "@ + decimal_text(timestamp as nat))
            + seq!['\n'] + ("Statement: "@ + statement))))),
{
    lemma_template_parts();
    let nl = seq!['\n'];
    let digits = decimal_text(timestamp as nat);
    let x5 = "Statement: "@ + statement;
    let r4 = ("Timestamp: "@ + digits) + nl + x5;
    let r3 = ("Handle: "@ + handle) + nl + r4;
    let r2 = ("Address: "@ + address) + nl + r3;
    let r1 = ("Domain: "@ + domain) + nl + r2;
    let t4 = "\nTimestamp: "@ + digits + "\nStatement: "@ + statement;
    let t3 = "\nHandle: "@ + handle + t4;
    let t2 = "\nAddress: "@ + address + t3;
    assert(t4 =~= nl + r4);
    assert(t3 =~= nl + r3);
    assert(t2 =~= nl + r2);
    assert("Web5 Login\nDomain: "@ + domain + t2 =~= "Web5 Login"@ + nl + r1);
    assert(challenge_text(domain, address, handle, timestamp, statement)
        =~= "Web5 Login\nDomain: "@ + domain + t2);
}

/// The lines of a challenge whose domain, address and handle hold no line
/// feed: the five lines of its head, each without a carriage return at its
/// end, followed by the lines of the statement line.
pub proof fn lemma_challenge_lines(
    domain: Seq<char>,
    address: Seq<char>,
    handle: Seq<char>,
    timestamp: u64,
    statement: Seq<char>,
)
    requires
        single_line(domain),
        single_line(address),
        single_line(handle),
    ensures
        lines(challenge_text(domain, address, handle, timestamp, statement)) == seq![
            "Web5 Login"@,
            strip_cr("Domain: "@ + domain),
            strip_cr("Address: "@ + address),
            strip_cr("Handle: "@ + handle),
            "Timestamp: "@ + decimal_text(timestamp as nat),
        ] + lines("Statement: "@ + statement),
{
    lemma_template_parts();
    lemma_challenge_by_lines(domain, address, handle, timestamp, statement);
    let digits = decimal_text(timestamp as nat);
    lemma_decimal_text_writes(timestamp as nat);
    lemma_digits_are_plain(digits);
    let nl = seq!['\n'];
    let x0 = "Web5 Login"@;
    let x1 = "Domain: "@ + domain;
    let x2 = "Address: "@ + address;
    let x3 = "Handle: "@ + handle;
    let x4 = "Timestamp: "@ + digits;
    let x5 = "Statement: "@ + statement;
    let r4 = x4 + nl + x5;
    let r3 = x3 + nl + r4;
    let r2 = x2 + nl + r3;
    let r1 = x1 + nl + r2;
    lemma_single_line_joined("Domain: "@, domain);
    lemma_single_line_joined("Address: "@, address);
    lemma_single_line_joined("Handle: "@, handle);
    lemma_single_line_joined("Timestamp: "@, digits);
    lemma_lines_of_joined(x0, r1);
    lemma_lines_of_joined(x1, r2);
    lemma_lines_of_joined(x2, r3);
    lemma_lines_of_joined(x3, r4);
    lemma_lines_of_joined(x4, x5);
    assert(strip_cr(x0) == x0);
    assert(x4.last() == digits.last());
    assert(strip_cr(x4) == x4);
    let head = seq![x0, strip_cr(x1), strip_cr(x2), strip_cr(x3), x4];
    assert(seq![strip_cr(x3)] + (seq![x4] + lines(x5)) =~= seq![strip_cr(x3), x4] + lines(x5));
    assert(seq![strip_cr(x2)] + (seq![strip_cr(x3), x4] + lines(x5)) =~= seq![
        strip_cr(x2),
        strip_cr(x3),
        x4,
    ] + lines(x5));
    assert(seq![strip_cr(x1)] + (seq![strip_cr(x2), strip_cr(x3), x4] + lines(x5)) =~= seq![
        strip_cr(x1),
        strip_cr(x2),
        strip_cr(x3),
        x4,
    ] + lines(x5));
    assert(seq![x0] + (seq![strip_cr(x1), strip_cr(x2), strip_cr(x3), x4] + lines(x5)) =~= head
        + lines(x5));
}

/// A line that begins with another character than `T` does not begin with
/// the timestamp prefix.
proof fn lemma_not_a_timestamp_line(line: Seq<char>)
    requires
        line.len() == 0 || line[0] != 'T',
    ensures
        !is_prefix(timestamp_prefix(), line),
{
    lemma_template_parts();
    if line.len() >= 11 {
        assert(line.subrange(0, 11)[0] == line[0]);
        assert(timestamp_prefix()[0] == 'T');
    }
}

/// The timestamp of a challenge comes back: whatever its statement, a
/// challenge whose domain, address and handle hold no line feed embeds the
/// time at which it was made.
pub proof fn lemma_challenge_embeds_its_timestamp(
    domain: Seq<char>,
    address: Seq<char>,
    handle: Seq<char>,
    timestamp: u64,
    statement: Seq<char>,
)
    requires
        single_line(domain),
        single_line(address),
        single_line(handle),
    ensures
        embedded_timestamp(challenge_text(domain, address, handle, timestamp, statement)) == Ok::<
            u64,
            ChallengeError,
        >(timestamp),
{
    lemma_template_parts();
    lemma_challenge_lines(domain, address, handle, timestamp, statement);
    let digits = decimal_text(timestamp as nat);
    lemma_decimal_text_writes(timestamp as nat);
    lemma_digits_are_plain(digits);
    lemma_decimal_round_trip(timestamp);
    let x1 = "Domain: "@ + domain;
    let x2 = "Address: "@ + address;
    let x3 = "Handle: "@ + handle;
    let x4 = "Timestamp: "@ + digits;
    let head = seq!["Web5 Login"@, strip_cr(x1), strip_cr(x2), strip_cr(x3), x4];
    let ls = head + lines("Statement: "@ + statement);
    assert(ls[0] == "Web5 Login"@);
    assert(ls[1] == strip_cr(x1));
    assert(ls[2] == strip_cr(x2));
    assert(ls[3] == strip_cr(x3));
    assert(ls[4] == x4);
    assert(x1[0] == 'D' && x1.len() >= 8);
    assert(x2[0] == 'A' && x2.len() >= 9);
    assert(x3[0] == 'H' && x3.len() >= 8);
    assert(strip_cr(x1)[0] == 'D');
    assert(strip_cr(x2)[0] == 'A');
    assert(strip_cr(x3)[0] == 'H');
    lemma_not_a_timestamp_line(ls[0]);
    lemma_not_a_timestamp_line(ls[1]);
    lemma_not_a_timestamp_line(ls[2]);
    lemma_not_a_timestamp_line(ls[3]);
    lemma_timestamp_in_passes_over(ls, 4);
    let rest = ls.skip(4);
    assert(rest[0] == x4);
    assert(x4.subrange(0, 11) =~= timestamp_prefix());
    assert(is_prefix(timestamp_prefix(), x4));
    assert(x4.skip(11) =~= digits);
    assert(timestamp_of_line(x4) == Some(timestamp));
}

/// A challenge states its statement: where domain, address, handle and
/// statement hold no line feed, the last line of the challenge holds the
/// statement.
pub proof fn lemma_challenge_states_its_statement(
    domain: Seq<char>,
    address: Seq<char>,
    handle: Seq<char>,
    timestamp: u64,
    statement: Seq<char>,
)
    requires
        single_line(domain),
        single_line(address),
        single_line(handle),
        single_line(statement),
    ensures
        states(challenge_text(domain, address, handle, timestamp, statement), statement),
{
    lemma_template_parts();
    lemma_challenge_lines(domain, address, handle, timestamp, statement);
    let x5 = "Statement: "@ + statement;
    lemma_single_line_joined("Statement: "@, statement);
    lemma_lines_of_single(x5);
    let ls = lines(challenge_text(domain, address, handle, timestamp, statement));
    assert(ls.len() == 6);
    assert(ls[5] == x5);
    assert(x5.subrange(11, 11 + statement.len() as int) =~= statement);
    assert(occurs_at(statement, x5, 11));
    assert(occurs_in(statement, ls[5]));
}

/// A challenge is accepted for as long as it is fresh: where domain,
/// address, handle and statement hold no line feed, checking the challenge
/// made at `timestamp` for its own statement succeeds at every time `now`
/// at which fewer than 120 seconds have passed, and fails as expired at
/// every later time.
pub proof fn lemma_own_challenge_is_accepted_while_fresh(
    domain: Seq<char>,
    address: Seq<char>,
    handle: Seq<char>,
    timestamp: u64,
    statement: Seq<char>,
    now: u64,
)
    requires
        single_line(domain),
        single_line(address),
        single_line(handle),
        single_line(statement),
        timestamp <= now,
    ensures
        now - timestamp < 120 ==> challenge_verdict(
            challenge_text(domain, address, handle, timestamp, statement),
            statement,
            now,
        ) is Ok,
        now - timestamp >= 120 ==> challenge_verdict(
            challenge_text(domain, address, handle, timestamp, statement),
            statement,
            now,
        ) == Err::<(), ChallengeError>(ChallengeError::Expired),
{
    lemma_challenge_embeds_its_timestamp(domain, address, handle, timestamp, statement);
    lemma_challenge_states_its_statement(domain, address, handle, timestamp, statement);
}

} // verus!
