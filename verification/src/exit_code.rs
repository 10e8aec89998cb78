//! Recovering a guest's exit code from the text of a runtime error.
//!
//! When a typed exit status is lost on the way out of the engine, the only
//! trace of it is a message of the form `...ExitCode::N...`. The functions
//! here find the first such marker and read the decimal number after it.

use vstd::prelude::*;
use vstd::string::*;
use vstd::utf8::encode_utf8;

verus! {

/// The bytes that introduce an exit code in an error message.
pub open spec fn exit_marker() -> Seq<u8> {
    "ExitCode::".spec_bytes()
}

/// `needle` lies in `hay` starting at index `at`.
pub open spec fn occurs_at(hay: Seq<u8>, needle: Seq<u8>, at: int) -> bool {
    &&& 0 <= at
    &&& at + needle.len() <= hay.len()
    &&& hay.subrange(at, at + needle.len()) == needle
}

/// `at` is where `needle` occurs in `hay` for the first time.
pub open spec fn first_occurrence(hay: Seq<u8>, needle: Seq<u8>, at: int) -> bool {
    &&& occurs_at(hay, needle, at)
    &&& forall|earlier: int| 0 <= earlier < at ==> !occurs_at(hay, needle, earlier)
}

/// `needle` occurs nowhere in `hay`.
pub open spec fn absent(hay: Seq<u8>, needle: Seq<u8>) -> bool {
    forall|at: int| !occurs_at(hay, needle, at)
}

/// An ASCII decimal digit.
pub open spec fn is_digit(b: u8) -> bool {
    0x30 <= b <= 0x39
}

/// How many ASCII digits stand in a row in `s` from index `from` on.
pub open spec fn digit_run_len(s: Seq<u8>, from: int) -> nat
    decreases s.len() - from,
{
    if 0 <= from < s.len() && is_digit(s[from]) {
        1 + digit_run_len(s, from + 1)
    } else {
        0
    }
}

/// The number that a sequence of ASCII digits writes in base ten.
pub open spec fn decimal_value(digits: Seq<u8>) -> nat
    decreases digits.len(),
{
    if digits.len() == 0 {
        0
    } else {
        decimal_value(digits.drop_last()) * 10 + (digits.last() - 0x30) as nat
    }
}

/// The exit code that follows a marker ending just before index `start`:
/// the longest run of digits there, if it is not empty and its value fits
/// in an `i32`.
pub open spec fn exit_code_at(msg: Seq<u8>, start: int) -> Option<i32> {
    let len = digit_run_len(msg, start);
    let value = decimal_value(msg.subrange(start, start + len));
    if len > 0 && value <= i32::MAX {
        Some(value as i32)
    } else {
        None
    }
}

/// The exit code a message carries: the number after the first marker, or
/// nothing when there is no marker or no usable number after the first one.
pub open spec fn exit_code_of(msg: Seq<u8>) -> Option<i32> {
    if exists|at: int| first_occurrence(msg, exit_marker(), at) {
        let at = choose|at: int| first_occurrence(msg, exit_marker(), at);
        exit_code_at(msg, at + exit_marker().len())
    } else {
        None
    }
}

/// A needle has at most one first occurrence.
pub proof fn lemma_first_occurrence_unique(hay: Seq<u8>, needle: Seq<u8>, a: int, b: int)
    requires
        first_occurrence(hay, needle, a),
        first_occurrence(hay, needle, b),
    ensures
        a == b,
{
    if a < b {
        assert(!occurs_at(hay, needle, a));
    } else if b < a {
        assert(!occurs_at(hay, needle, b));
    }
}

/// A run of digits that is closed at `to` has length `to - from`.
proof fn lemma_digit_run(s: Seq<u8>, from: int, to: int)
    requires
        0 <= from <= to <= s.len(),
        forall|k: int| from <= k < to ==> is_digit(#[trigger] s[k]),
        to == s.len() || !is_digit(s[to]),
    ensures
        digit_run_len(s, from) == to - from,
    decreases to - from,
{
    if from < to {
        lemma_digit_run(s, from + 1, to);
    }
}

/// Reading one more digit multiplies the value by ten and adds the digit.
proof fn lemma_decimal_step(s: Seq<u8>, from: int, to: int)
    requires
        0 <= from <= to < s.len(),
    ensures
        decimal_value(s.subrange(from, to + 1)) == decimal_value(s.subrange(from, to)) * 10 + (
        s[to] - 0x30) as nat,
{
    let longer = s.subrange(from, to + 1);
    assert(longer.drop_last() =~= s.subrange(from, to));
    assert(longer.last() == s[to]);
}

/// Whether `needle` lies in `hay` at index `at`.
fn matches_at(hay: &[u8], needle: &[u8], at: usize) -> (r: bool)
    requires
        at + needle@.len() <= hay@.len(),
    ensures
        r == occurs_at(hay@, needle@, at as int),
{
    let n = needle.len();
    let len = hay.len();
    let mut j: usize = 0;
    while j < n
        invariant
            n == needle@.len(),
            len == hay@.len(),
            at + n <= len,
            0 <= j <= n,
            forall|k: int| 0 <= k < j ==> hay@[at + k] == needle@[k],
        decreases n - j,
    {
        if hay[at + j] != needle[j] {
            proof {
                let window = hay@.subrange(at as int, at + n);
                assert(window[j as int] == hay@[at + j]);
            }
            return false;
        }
        j += 1;
    }
    proof {
        assert(hay@.subrange(at as int, at + n) =~= needle@);
    }
    true
}

/// Finds where `needle` first occurs in `hay`.
pub fn find_bytes(hay: &[u8], needle: &[u8]) -> (r: Option<usize>)
    ensures
        match r {
            Some(at) => first_occurrence(hay@, needle@, at as int),
            None => absent(hay@, needle@),
        },
{
    let n = needle.len();
    let len = hay.len();
    if n > len {
        return None;
    }
    let last = len - n;
    let mut i: usize = 0;
    loop
        invariant
            n == needle@.len(),
            len == hay@.len(),
            n <= len,
            last == len - n,
            0 <= i <= last,
            forall|earlier: int| 0 <= earlier < i ==> !occurs_at(hay@, needle@, earlier),
        decreases last - i,
    {
        if matches_at(hay, needle, i) {
            return Some(i);
        }
        if i == last {
            return None;
        }
        i += 1;
    }
}

/// Reads the exit code whose digits begin at index `start` of `msg`.
pub fn read_exit_code(msg: &[u8], start: usize) -> (r: Option<i32>)
    ensures
        r == exit_code_at(msg@, start as int),
{
    let len = msg.len();
    if start > len {
        return None;
    }
    let mut end: usize = start;
    let mut value: u32 = 0;
    let mut fits = true;
    while end < len && msg[end] >= 0x30 && msg[end] <= 0x39
        invariant
            len == msg@.len(),
            start <= end <= len,
            forall|k: int| start <= k < end ==> is_digit(#[trigger] msg@[k]),
            fits ==> value == decimal_value(msg@.subrange(start as int, end as int)),
            fits ==> value <= i32::MAX,
            !fits ==> decimal_value(msg@.subrange(start as int, end as int)) > i32::MAX,
        decreases len - end,
    {
        let digit: u32 = (msg[end] - 0x30) as u32;
        proof {
            lemma_decimal_step(msg@, start as int, end as int);
        }
        if fits {
            if value > 214748364 || (value == 214748364 && digit > 7) {
                fits = false;
            } else {
                value = value * 10 + digit;
            }
        }
        end += 1;
    }
    proof {
        lemma_digit_run(msg@, start as int, end as int);
    }
    if end > start && fits {
        Some(value as i32)
    } else {
        None
    }
}

/// Extracts the exit code from an error message.
///
/// The message is searched for the first `ExitCode::`; the digits that follow
/// it are read as a decimal number. The result is `None` when the marker is
/// missing, when no digit follows its first occurrence, or when the number
/// does not fit in an `i32`.
pub fn parse_exit_code_from_message(msg: &str) -> (r: Option<i32>)
    ensures
        r == exit_code_of(msg.spec_bytes()),
{
    let bytes = msg.as_bytes();
    let marker = "ExitCode::".as_bytes();
    match find_bytes(bytes, marker) {
        Some(at) => {
            proof {
                assert forall|other: int| first_occurrence(bytes@, exit_marker(), other) implies other
                    == at by {
                    lemma_first_occurrence_unique(bytes@, exit_marker(), other, at as int);
                }
            }
            let len = bytes.len();
            assert(at + marker@.len() <= len);
            read_exit_code(bytes, at + marker.len())
        },
        None => None,
    }
}

/// How a call of the guest's entry point ended.
#[derive(Debug)]
pub enum CallOutcome {
    /// The entry point returned.
    Returned,
    /// The guest asked to exit with this code.
    Exit(i32),
    /// The guest's thread asked to exit.
    ThreadExit,
    /// The call failed with an error of no known type; only its message is left.
    Error(String),
}

/// The exit code of a call: the code the guest asked for; zero if the entry
/// point returned or the thread exited; for an untyped error the code that
/// its message carries, and zero if it carries none.
pub open spec fn resolved(outcome: CallOutcome) -> i32 {
    match outcome {
        CallOutcome::Returned => 0,
        CallOutcome::Exit(code) => code,
        CallOutcome::ThreadExit => 0,
        CallOutcome::Error(message) => match exit_code_of(encode_utf8(message@)) {
            Some(code) => code,
            None => 0,
        },
    }
}

/// Determines the exit code of a call from how it ended.
pub fn resolve_exit_code(outcome: &CallOutcome) -> (r: i32)
    ensures
        r == resolved(*outcome),
{
    match outcome {
        CallOutcome::Returned => 0,
        CallOutcome::Exit(code) => *code,
        CallOutcome::ThreadExit => 0,
        CallOutcome::Error(message) => match parse_exit_code_from_message(message.as_str()) {
            Some(code) => code,
            None => 0,
        },
    }
}

} // verus!
