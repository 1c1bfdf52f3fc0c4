//! The launcher's local, append-only operational log: one line per event,
//! `<unix seconds> [<level>] <message>`, with line breaks in the message
//! replaced by spaces.

use vstd::prelude::*;
use crate::text::{decimal, decimal_string, digit_char, push_char, push_str};

verus! {

/// `std::time::SystemTime`, carried through opaquely.
#[verifier::external_type_specification]
#[verifier::external_body]
pub struct ExSystemTime(std::time::SystemTime);

/// `std::time::SystemTimeError`, carried through opaquely.
#[verifier::external_type_specification]
#[verifier::external_body]
pub struct ExSystemTimeError(std::time::SystemTimeError);

/// `SystemTime::now`: the current time, which nothing here can predict.
#[verifier::external_body]
fn system_now() -> std::time::SystemTime {
    std::time::SystemTime::now()
}

/// `SystemTime::duration_since(UNIX_EPOCH)`: an error when the clock is set
/// before 1970.
#[verifier::external_body]
fn since_unix_epoch(t: &std::time::SystemTime) -> Result<std::time::Duration, std::time::SystemTimeError> {
    t.duration_since(std::time::UNIX_EPOCH)
}

/// `Duration::as_secs`: the whole seconds of a duration.
#[verifier::external_body]
fn whole_seconds(d: &std::time::Duration) -> u64 {
    d.as_secs()
}

/// The timestamp for what reading the clock gave: the whole seconds since
/// the Unix epoch, or 0 when the clock read earlier than the epoch (`None`).
pub fn timestamp_from(elapsed_secs: Option<u64>) -> (r: u64)
    ensures
        r == (match elapsed_secs {
            Some(secs) => secs,
            None => 0,
        }),
{
    match elapsed_secs {
        Some(secs) => secs,
        None => 0,
    }
}

/// Seconds since the Unix epoch, or 0 when the clock reads earlier.
/// The value is the machine's clock, so nothing is stated of it; what is
/// made of the clock's reading is [`timestamp_from`].
pub fn unix_timestamp() -> u64 {
    let now = system_now();
    let elapsed_secs = match since_unix_epoch(&now) {
        Ok(elapsed) => Some(whole_seconds(&elapsed)),
        Err(_) => None,
    };
    timestamp_from(elapsed_secs)
}

/// A message with carriage returns and line feeds replaced by spaces, so
/// that each event stays on one line.
pub open spec fn single_line(message: Seq<char>) -> Seq<char> {
    message.map_values(|c: char| if c == '\n' || c == '\r' { ' ' } else { c })
}

/// One line of the log, without its line break.
pub open spec fn log_line_text(timestamp: u64, level: Seq<char>, message: Seq<char>) -> Seq<char> {
    decimal(timestamp as nat) + " ["@ + level + "] "@ + single_line(message)
}

/// The log line for an event.
pub fn log_line(timestamp: u64, level: &str, message: &str) -> (r: String)
    ensures
        r@ == log_line_text(timestamp, level@, message@),
{
    let mut out = decimal_string(timestamp);
    push_str(&mut out, " [");
    push_str(&mut out, level);
    push_str(&mut out, "] ");
    let ghost prefix = out@;
    for c in it: message.chars()
        invariant
            it.seq() == message@,
            out@ == prefix + single_line(message@.take(it.index() as int)),
    {
        let d = if c == '\n' || c == '\r' {
            ' '
        } else {
            c
        };
        push_char(&mut out, d);
        assert(message@.take(it.index() + 1) == message@.take(it.index() as int).push(c));
        assert(single_line(message@.take(it.index() + 1)) == single_line(
            message@.take(it.index() as int),
        ).push(d));
    }
    assert(message@.take(message@.len() as int) == message@);
    out
}

proof fn lemma_decimal_is_digits(n: nat)
    ensures
        forall|i: int| 0 <= i < decimal(n).len() ==> '0' <= #[trigger] decimal(n)[i] <= '9',
    decreases n,
{
    let table = seq!['0', '1', '2', '3', '4', '5', '6', '7', '8', '9'];
    let d = (n % 10) as int;
    assert('0' <= table[d] <= '9');
    assert(digit_char(n % 10) == table[d]);
    let s = decimal(n);
    if n >= 10 {
        lemma_decimal_is_digits(n / 10);
        assert(s == decimal(n / 10).push(digit_char(n % 10)));
        assert forall|i: int| 0 <= i < s.len() implies '0' <= #[trigger] s[i] <= '9' by {
            if i < s.len() - 1 {
                assert(s[i] == decimal(n / 10)[i]);
            }
        }
    } else {
        assert(s == seq![digit_char(n)]);
        assert(n % 10 == n);
    }
}

/// Every event takes exactly one line of the log: a line never holds a
/// line feed or a carriage return, whatever the message, as long as the
/// level holds none.
pub proof fn log_line_is_one_line(timestamp: u64, level: Seq<char>, message: Seq<char>)
    requires
        !level.contains('\n'),
        !level.contains('\r'),
    ensures
        !log_line_text(timestamp, level, message).contains('\n'),
        !log_line_text(timestamp, level, message).contains('\r'),
{
    reveal_strlit(" [");
    reveal_strlit("] ");
    lemma_decimal_is_digits(timestamp as nat);
    let d = decimal(timestamp as nat);
    let line = log_line_text(timestamp, level, message);
    let tail = single_line(message);
    assert forall|i: int| 0 <= i < line.len() implies line[i] != '\n' && line[i] != '\r' by {
        let a = d.len() as int;
        let b = a + 2;
        let c = b + level.len();
        let e = c + 2;
        if i < a {
            assert(line[i] == d[i]);
        } else if i < b {
            assert(line[i] == " ["@[i - a]);
        } else if i < c {
            assert(line[i] == level[i - b]);
            assert(level.contains(level[i - b]));
        } else if i < e {
            assert(line[i] == "] "@[i - c]);
        } else {
            assert(line[i] == tail[i - e]);
        }
    }
}

} // verus!
