//! The shareable link: what the query string of the page's address says
//! about the session, and what the session writes back into it.
//!
//! Text that comes from the address is read as bytes (its UTF-8 encoding).

use vstd::prelude::*;
use vstd::string::StringSliceAdditionalSpecFns;

verus! {

/// `needle` stands in `hay` at index `at`.
pub open spec fn occurs_at(hay: Seq<u8>, needle: Seq<u8>, at: int) -> bool {
    &&& 0 <= at
    &&& at + needle.len() <= hay.len()
    &&& hay.subrange(at, at + needle.len()) == needle
}

/// `needle` stands somewhere in `hay`.
pub open spec fn occurs(hay: Seq<u8>, needle: Seq<u8>) -> bool {
    exists|at: int| occurs_at(hay, needle, at)
}

/// Whether `needle` stands at `at` in `hay`.
fn matches_at(hay: &[u8], needle: &[u8], at: usize) -> (found: bool)
    requires
        at + needle@.len() <= hay@.len(),
    ensures
        found == occurs_at(hay@, needle@, at as int),
{
    let length = needle.len();
    let whole = hay.len();
    let mut i: usize = 0;
    while i < length
        invariant
            length == needle@.len(),
            whole == hay@.len(),
            i <= length,
            at + length <= whole,
            forall|k: int| 0 <= k < i ==> hay@[at + k] == needle@[k],
        decreases length - i,
    {
        if hay[at + i] != needle[i] {
            return false;
        }
        i = i + 1;
    }
    assert(hay@.subrange(at as int, at + length) =~= needle@);
    true
}

/// Whether `needle` stands somewhere in `hay`.
pub fn contains_bytes(hay: &[u8], needle: &[u8]) -> (found: bool)
    ensures
        found == occurs(hay@, needle@),
{
    let length = needle.len();
    let whole = hay.len();
    if length > whole {
        return false;
    }
    let last = whole - length;
    let mut at: usize = 0;
    loop
        invariant
            length == needle@.len(),
            whole == hay@.len(),
            last + length == whole,
            at <= last,
            forall|k: int| 0 <= k < at ==> !occurs_at(hay@, needle@, k),
        decreases last - at,
    {
        if matches_at(hay, needle, at) {
            return true;
        }
        if at == last {
            return false;
        }
        at = at + 1;
    }
}

/// What the address asks of a new session.
#[derive(Clone, Copy, Debug, PartialEq, Eq, Structural)]
pub struct SessionMode {
    /// Replay the stored recording rather than play live.
    pub playback: bool,
    /// Join a live game to watch rather than to play.
    pub spectate: bool,
}

/// The mode that the query string `search` selects: replay where it
/// mentions `recording`, watching where it mentions `spectate`. The two
/// markers are independent.
pub open spec fn spec_session_mode(search: Seq<u8>) -> SessionMode {
    SessionMode {
        playback: occurs(search, "recording".spec_bytes()),
        spectate: occurs(search, "spectate".spec_bytes()),
    }
}

/// Reads the mode off the query string.
pub fn session_mode(search: &str) -> (mode: SessionMode)
    ensures
        mode == spec_session_mode(search.spec_bytes()),
{
    let bytes = search.as_bytes();
    SessionMode {
        playback: contains_bytes(bytes, "recording".as_bytes()),
        spectate: contains_bytes(bytes, "spectate".as_bytes()),
    }
}

/// The character that stands for the digit `d`.
pub open spec fn digit_char(d: int) -> char {
    if d == 0 {
        '0'
    } else if d == 1 {
        '1'
    } else if d == 2 {
        '2'
    } else if d == 3 {
        '3'
    } else if d == 4 {
        '4'
    } else if d == 5 {
        '5'
    } else if d == 6 {
        '6'
    } else if d == 7 {
        '7'
    } else if d == 8 {
        '8'
    } else {
        '9'
    }
}

/// `n` written in decimal, without sign or leading zeros.
pub open spec fn decimal(n: nat) -> Seq<char>
    decreases n,
{
    if n < 10 {
        seq![digit_char(n as int)]
    } else {
        decimal(n / 10).push(digit_char((n % 10) as int))
    }
}

/// How many nanoseconds make a second.
pub const NANOS_PER_SECOND: u64 = 1_000_000_000;

/// The query string that shares a replay at `cursor` nanoseconds: the
/// replay marker and the offset in whole seconds, rounded down.
pub open spec fn spec_time_query(cursor: u64) -> Seq<char> {
    "?recording&time="@ + decimal((cursor / NANOS_PER_SECOND) as nat)
}

/// The digit `d` as text.
fn digit_text(d: u64) -> (s: &'static str)
    requires
        d < 10,
    ensures
        s@ == seq![digit_char(d as int)],
{
    proof {
        reveal_strlit("0");
        reveal_strlit("1");
        reveal_strlit("2");
        reveal_strlit("3");
        reveal_strlit("4");
        reveal_strlit("5");
        reveal_strlit("6");
        reveal_strlit("7");
        reveal_strlit("8");
        reveal_strlit("9");
    }
    let s = if d == 0 {
        "0"
    } else if d == 1 {
        "1"
    } else if d == 2 {
        "2"
    } else if d == 3 {
        "3"
    } else if d == 4 {
        "4"
    } else if d == 5 {
        "5"
    } else if d == 6 {
        "6"
    } else if d == 7 {
        "7"
    } else if d == 8 {
        "8"
    } else {
        "9"
    };
    s
}

/// Writes `n` in decimal.
pub fn decimal_string(n: u64) -> (s: String)
    ensures
        s@ == decimal(n as nat),
    decreases n,
{
    if n < 10 {
        String::from_str(digit_text(n))
    } else {
        let s = decimal_string(n / 10).concat(digit_text(n % 10));
        s
    }
}

/// The query string that shares a replay at `cursor` nanoseconds.
pub fn time_query(cursor: u64) -> (s: String)
    ensures
        s@ == spec_time_query(cursor),
{
    let seconds = decimal_string(cursor / NANOS_PER_SECOND);
    String::from_str("?recording&time=").concat(seconds.as_str())
}

/// What to write into the address, given the query string it holds now and
/// the one that says where the replay stands: the new one where the two
/// differ, nothing where they are the same.
pub open spec fn spec_link_update(current: Seq<char>, wanted: Seq<char>) -> Option<Seq<char>> {
    if current == wanted {
        None
    } else {
        Some(wanted)
    }
}

/// Decides whether the address needs rewriting, so that an address that
/// already says the right thing is left alone.
pub fn link_update(current: &str, wanted: String) -> (update: Option<String>)
    ensures
        match update {
            Some(text) => spec_link_update(current@, wanted@) == Some(text@),
            None => spec_link_update(current@, wanted@) is None,
        },
{
    let held = String::from_str(current);
    if held == wanted {
        None
    } else {
        Some(wanted)
    }
}

/// The largest offset, in nanoseconds, that reading a time can give.
pub const OFFSET_LIMIT: u64 = 0x7fff_ffff_ffff_ffff;

/// `b` is an ASCII digit.
pub open spec fn is_digit(b: u8) -> bool {
    0x30 <= b <= 0x39
}

/// The value of the digit at index `i` of `text`, or zero where there is
/// none.
pub open spec fn digit_at(text: Seq<u8>, i: int) -> nat {
    if 0 <= i < text.len() && is_digit(text[i]) {
        (text[i] - 0x30) as nat
    } else {
        0
    }
}

/// The first index at or after `from` that holds no digit, or the length of
/// `text`.
pub open spec fn digits_end(text: Seq<u8>, from: int) -> int
    decreases text.len() - from,
{
    if 0 <= from < text.len() && is_digit(text[from]) {
        digits_end(text, from + 1)
    } else {
        from
    }
}

/// The number that the digits in `[from, to)` write in decimal. Where the
/// range runs past the end of `text`, it reads zeros there.
pub open spec fn number(text: Seq<u8>, from: int, to: int) -> nat
    decreases to - from,
{
    if to <= from {
        0
    } else {
        number(text, from, to - 1) * 10 + digit_at(text, to - 1)
    }
}

/// The nanoseconds that the unsigned decimal number of seconds starting at
/// index `from` of `text` stands for, or `None` where the text from there
/// on is no such number.
///
/// A number is digits, then optionally a point and more digits, with at
/// least one digit in all. Of the digits behind the point the first nine
/// count; the rest are cut off.
pub open spec fn spec_seconds_in_nanos(text: Seq<u8>, from: int) -> Option<nat> {
    let point = digits_end(text, from);
    let end = digits_end(text, point + 1);
    if point == text.len() {
        if point > from {
            Some(number(text, from, point) * (NANOS_PER_SECOND as nat))
        } else {
            None
        }
    } else if text[point] == 0x2e && end == text.len() && end - from > 1 {
        Some(
            number(text, from, point) * (NANOS_PER_SECOND as nat) + number(
                text,
                point + 1,
                point + 10,
            ),
        )
    } else {
        None
    }
}

/// The offset in nanoseconds that `text` stands for as a number of
/// seconds, or `None` where it is no number.
///
/// The number may carry a sign. Its size is capped at `OFFSET_LIMIT`.
pub open spec fn spec_time_offset(text: Seq<u8>) -> Option<int> {
    let signed = text.len() > 0 && (text[0] == 0x2d || text[0] == 0x2b);
    let negative = text.len() > 0 && text[0] == 0x2d;
    match spec_seconds_in_nanos(
        text,
        if signed {
            1
        } else {
            0
        },
    ) {
        Some(nanos) => {
            let size = if nanos > OFFSET_LIMIT {
                OFFSET_LIMIT as int
            } else {
                nanos as int
            };
            Some(
                if negative {
                    -size
                } else {
                    size
                },
            )
        },
        None => None,
    }
}

/// `digits_end` stays within the text, passes only digits and halts at
/// what is none.
pub proof fn lemma_digits_end(text: Seq<u8>, from: int)
    requires
        0 <= from <= text.len(),
    ensures
        from <= digits_end(text, from) <= text.len(),
        forall|i: int| from <= i < digits_end(text, from) ==> is_digit(#[trigger] text[i]),
        digits_end(text, from) < text.len() ==> !is_digit(text[digits_end(text, from)]),
    decreases text.len() - from,
{
    if from < text.len() && is_digit(text[from]) {
        lemma_digits_end(text, from + 1);
    }
}

/// Scanning for the end of the digits may pick up anywhere among them.
proof fn lemma_digits_end_resumes(text: Seq<u8>, from: int, mid: int)
    requires
        0 <= from <= mid <= text.len(),
        forall|i: int| from <= i < mid ==> is_digit(#[trigger] text[i]),
    ensures
        digits_end(text, from) == digits_end(text, mid),
    decreases mid - from,
{
    if from < mid {
        lemma_digits_end_resumes(text, from + 1, mid);
    }
}

/// Reads the digits from `from` on. Returns where they end and the number
/// they write, capped at `OFFSET_LIMIT`.
fn read_digits(text: &[u8], from: usize) -> (r: (usize, u64))
    requires
        from <= text@.len(),
    ensures
        r.0 == digits_end(text@, from as int),
        r.1 == if number(text@, from as int, r.0 as int) > OFFSET_LIMIT {
            OFFSET_LIMIT as int
        } else {
            number(text@, from as int, r.0 as int) as int
        },
{
    let length = text.len();
    let mut at: usize = from;
    let mut value: u64 = 0;
    while at < length && 0x30 <= text[at] && text[at] <= 0x39
        invariant
            length == text@.len(),
            from <= at <= length,
            forall|i: int| from <= i < at ==> is_digit(#[trigger] text@[i]),
            value <= OFFSET_LIMIT,
            value == if number(text@, from as int, at as int) > OFFSET_LIMIT {
                OFFSET_LIMIT as int
            } else {
                number(text@, from as int, at as int) as int
            },
        decreases length - at,
    {
        let digit: u64 = (text[at] - 0x30) as u64;
        if value <= (OFFSET_LIMIT - digit) / 10 {
            value = value * 10 + digit;
        } else {
            value = OFFSET_LIMIT;
        }
        at = at + 1;
    }
    proof {
        lemma_digits_end_resumes(text@, from as int, at as int);
    }
    (at, value)
}

/// The value of the digit `ahead` places behind index `from`, or zero where
/// the text ends before it.
fn digit_ahead(text: &[u8], from: usize, ahead: usize) -> (digit: u64)
    requires
        from <= text@.len(),
    ensures
        digit == digit_at(text@, from + ahead),
        digit <= 9,
{
    if ahead < text.len() - from && 0x30 <= text[from + ahead] && text[from + ahead] <= 0x39 {
        (text[from + ahead] - 0x30) as u64
    } else {
        0
    }
}

/// Reads the nine places from `from` on as billionths, with zeros where the
/// text ends before the ninth.
fn read_billionths(text: &[u8], from: usize) -> (value: u64)
    requires
        from <= text@.len(),
    ensures
        value == number(text@, from as int, from + 9),
        value < NANOS_PER_SECOND,
{
    let tenths = digit_ahead(text, from, 0);
    let to_2 = tenths * 10 + digit_ahead(text, from, 1);
    let to_3 = to_2 * 10 + digit_ahead(text, from, 2);
    let to_4 = to_3 * 10 + digit_ahead(text, from, 3);
    let to_5 = to_4 * 10 + digit_ahead(text, from, 4);
    let to_6 = to_5 * 10 + digit_ahead(text, from, 5);
    let to_7 = to_6 * 10 + digit_ahead(text, from, 6);
    let to_8 = to_7 * 10 + digit_ahead(text, from, 7);
    let to_9 = to_8 * 10 + digit_ahead(text, from, 8);
    proof {
        reveal_with_fuel(number, 10);
    }
    to_9
}

/// Reads `text` as a number of seconds and gives it in nanoseconds.
///
/// Accepts an optional sign, digits, and optionally a point and more
/// digits; anything else, and a text without any digit, is no number.
/// Exponents (`1e2`) and the words for infinity and not-a-number are not
/// read. Fractions of a nanosecond are cut off, and the size of the result
/// is capped at `OFFSET_LIMIT`.
pub fn parse_time_offset(text: &str) -> (offset: Option<i64>)
    ensures
        match offset {
            Some(nanos) => spec_time_offset(text.spec_bytes()) == Some(nanos as int),
            None => spec_time_offset(text.spec_bytes()) is None,
        },
{
    let bytes = text.as_bytes();
    let length = bytes.len();
    let negative = length > 0 && bytes[0] == 0x2d;
    let from: usize = if length > 0 && (bytes[0] == 0x2d || bytes[0] == 0x2b) {
        1
    } else {
        0
    };
    let (point, seconds) = read_digits(bytes, from);
    proof {
        lemma_digits_end(bytes@, from as int);
    }
    let mut billionths: u64 = 0;
    if point == length {
        if point == from {
            return None;
        }
    } else {
        if bytes[point] != 0x2e {
            return None;
        }
        let (end, _) = read_digits(bytes, point + 1);
        proof {
            lemma_digits_end(bytes@, point + 1);
        }
        if end != length || end - from <= 1 {
            return None;
        }
        billionths = read_billionths(bytes, point + 1);
    }
    let size: u64 = if seconds <= (OFFSET_LIMIT - billionths) / NANOS_PER_SECOND {
        seconds * NANOS_PER_SECOND + billionths
    } else {
        OFFSET_LIMIT
    };
    if negative {
        Some(-(size as i64))
    } else {
        Some(size as i64)
    }
}

/// Reads the time parameter of the address, where it has one.
pub fn read_time_offset(parameter: Option<&str>) -> (offset: Option<i64>)
    ensures
        match (parameter, offset) {
            (Some(text), Some(nanos)) => spec_time_offset(text.spec_bytes()) == Some(
                nanos as int,
            ),
            (Some(text), None) => spec_time_offset(text.spec_bytes()) is None,
            (None, _) => offset is None,
        },
{
    match parameter {
        Some(text) => parse_time_offset(text),
        None => None,
    }
}

} // verus!
