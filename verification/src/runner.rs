//! The timed trial runner and its report line.
//!
//! `run_test` executes an operation a fixed number of times between two
//! clock reads and emits one line, `"<label> time: <seconds>"`, with the
//! elapsed time printed as seconds with nine fractional digits. The line's
//! text is verified exactly; the clock readings themselves are outside work.

use vstd::prelude::*;
use vstd::string::StringExecFns;
use std::io::Write;

verus! {

/// Number of times a trial's operation is executed per timed run.
pub const ITERATIONS: usize = 1000;

/// Nanoseconds in a second.
pub const NANOS_PER_SEC: u128 = 1000000000;

#[verifier::external_type_specification]
#[verifier::external_body]
pub struct ExInstant(std::time::Instant);

/// Relies on std::time::Instant::now: a reading of a monotonic
/// high-resolution clock. Nothing is promised of the value.
pub assume_specification[ std::time::Instant::now ]() -> std::time::Instant;

/// Relies on std::time::Instant::elapsed: the time since the reading.
/// Nothing is promised of the value.
pub assume_specification[ std::time::Instant::elapsed ](
    i: &std::time::Instant,
) -> core::time::Duration;

/// Relies on core::time::Duration::as_nanos: the duration in whole
/// nanoseconds. Nothing is promised of the value.
pub assume_specification[ core::time::Duration::as_nanos ](d: &core::time::Duration) -> u128;

/// Relies on std::io::stdout via writeln: prints the message as one line.
#[verifier::external_body]
pub fn log_message(message: &str) {
    let _ = writeln!(std::io::stdout(), "{}", message);
}

/// The decimal digit character for `d`.
pub open spec fn digit_char(d: nat) -> char {
    if d == 0 {
        '0'
    } else if d == 1 {
        '1'
    } else if d == 2 {
        '2'
    } else if d == 3 {
        '3'
    } else if d == 4 {
        '4'
    } else if d == 5 {
        '5'
    } else if d == 6 {
        '6'
    } else if d == 7 {
        '7'
    } else if d == 8 {
        '8'
    } else {
        '9'
    }
}

/// The decimal digits of `n`, without leading zeros.
pub open spec fn dec_str(n: nat) -> Seq<char>
    decreases n,
{
    if n < 10 {
        seq![digit_char(n)]
    } else {
        dec_str(n / 10).push(digit_char(n % 10))
    }
}

/// The last `width` decimal digits of `n`, zero-padded.
pub open spec fn padded_str(n: nat, width: nat) -> Seq<char>
    decreases width,
{
    if width == 0 {
        Seq::empty()
    } else {
        padded_str(n / 10, (width - 1) as nat).push(digit_char(n % 10))
    }
}

/// `nanos` nanoseconds printed as seconds: the whole seconds, a point, and
/// nine fractional digits.
pub open spec fn seconds_str(nanos: nat) -> Seq<char> {
    dec_str(nanos / 1000000000) + "."@ + padded_str(nanos % 1000000000, 9)
}

/// The report line for a trial: its label, `" time: "`, and the seconds.
pub open spec fn line_spec(label: Seq<char>, nanos: nat) -> Seq<char> {
    label + " time: "@ + seconds_str(nanos)
}

fn digit_str(d: u8) -> (s: &'static str)
    requires
        d < 10,
    ensures
        s@ == seq![digit_char(d as nat)],
{
    proof {
        reveal_strlit("0");
        reveal_strlit("1");
        reveal_strlit("2");
        reveal_strlit("3");
        reveal_strlit("4");
        reveal_strlit("5");
        reveal_strlit("6");
        reveal_strlit("7");
        reveal_strlit("8");
        reveal_strlit("9");
    }
    if d == 0 {
        "0"
    } else if d == 1 {
        "1"
    } else if d == 2 {
        "2"
    } else if d == 3 {
        "3"
    } else if d == 4 {
        "4"
    } else if d == 5 {
        "5"
    } else if d == 6 {
        "6"
    } else if d == 7 {
        "7"
    } else if d == 8 {
        "8"
    } else {
        "9"
    }
}

/// The decimal digits of `n`, without leading zeros.
pub fn dec_string(n: u128) -> (s: String)
    ensures
        s@ == dec_str(n as nat),
    decreases n,
{
    if n < 10 {
        let s = digit_str(n as u8).to_owned();
        proof {
            assert(s@ =~= dec_str(n as nat));
        }
        s
    } else {
        let mut s = dec_string(n / 10);
        s.append(digit_str((n % 10) as u8));
        proof {
            assert(s@ =~= dec_str(n as nat));
        }
        s
    }
}

/// The last `width` decimal digits of `n`, zero-padded.
pub fn padded_string(n: u128, width: u8) -> (s: String)
    ensures
        s@ == padded_str(n as nat, width as nat),
    decreases width,
{
    if width == 0 {
        let s = String::new();
        proof {
            assert(s@ =~= padded_str(n as nat, 0));
        }
        s
    } else {
        let mut s = padded_string(n / 10, width - 1);
        s.append(digit_str((n % 10) as u8));
        proof {
            assert(s@ =~= padded_str(n as nat, width as nat));
        }
        s
    }
}

/// Formats one trial's report line from its label and the elapsed
/// nanoseconds.
pub fn trial_line(label: &str, nanos: u128) -> (line: String)
    ensures
        line@ == line_spec(label@, nanos as nat),
{
    let mut line = label.to_owned();
    line.append(" time: ");
    let whole = dec_string(nanos / NANOS_PER_SEC);
    line.append(whole.as_str());
    line.append(".");
    let frac = padded_string(nanos % NANOS_PER_SEC, 9);
    line.append(frac.as_str());
    proof {
        assert(line@ =~= line_spec(label@, nanos as nat));
    }
    line
}

/// Runs the operation `ITERATIONS` times between two clock readings, prints
/// the report line, and returns it together with the conjunction of the
/// operation's results. If the operation's contract forces `true`, the
/// returned flag is `true`; if it forces `false`, the flag is `false`.
pub fn run_test<F: Fn() -> bool>(label: &str, f: F) -> (res: (String, bool))
    requires
        call_requires(f, ()),
    ensures
        exists|n: nat| res.0@ == line_spec(label@, n),
        (forall|b: bool| call_ensures(f, (), b) ==> b) ==> res.1,
        (forall|b: bool| call_ensures(f, (), b) ==> !b) ==> !res.1,
{
    let start = std::time::Instant::now();
    let mut ok = true;
    let mut i: usize = 0;
    while i < ITERATIONS
        invariant
            i <= ITERATIONS,
            call_requires(f, ()),
            (forall|b: bool| call_ensures(f, (), b) ==> b) ==> ok,
            (i > 0 && (forall|b: bool| call_ensures(f, (), b) ==> !b)) ==> !ok,
        decreases ITERATIONS - i,
    {
        let r = f();
        ok = ok && r;
        i = i + 1;
    }
    let nanos = start.elapsed().as_nanos();
    let line = trial_line(label, nanos);
    log_message(line.as_str());
    (line, ok)
}

/// The labels of the six timed trials, in the order the driver runs them.
pub fn trial_labels() -> (labels: Vec<&'static str>)
    ensures
        labels@.len() == 6,
        labels@[0]@ == "uuid default hash"@,
        labels@[1]@ == "uuid default hash, no write"@,
        labels@[2]@ == "u128 default hash"@,
        labels@[3]@ == "u128 default hash, no write"@,
        labels@[4]@ == "u128 xor hash with nohash_hasher"@,
        labels@[5]@ == "u128 xor hash with nohash_hasher, no write"@,
{
    let mut labels: Vec<&'static str> = Vec::new();
    labels.push("uuid default hash");
    labels.push("uuid default hash, no write");
    labels.push("u128 default hash");
    labels.push("u128 default hash, no write");
    labels.push("u128 xor hash with nohash_hasher");
    labels.push("u128 xor hash with nohash_hasher, no write");
    labels
}

} // verus!
