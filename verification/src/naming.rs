//! Output file naming.
//!
//! Each captured monitor image is written under a name built from the
//! capture instant and the monitor's reported name: the instant is
//! formatted day-month-year with microsecond precision, and the name is
//! sanitized by removing the characters `|`, `\`, `:` and `/`, which are
//! illegal or meaningful as path separators on common filesystems.

use vstd::prelude::*;
use vstd::string::StrSliceExecFns;
use vstd::string::StringExecFns;
use crate::clock::ClockReading;

verus! {

/// One capture instant, split into calendar and time-of-day fields.
/// Unlike a raw [`ClockReading`], a well-formed `Timestamp` has every
/// field inside the range its two format digits (four for the year, six
/// for the microseconds) can carry.
#[derive(Clone, Copy, Debug, PartialEq, Eq, Structural)]
pub struct Timestamp {
    pub year: u32,
    pub month: u32,
    pub day: u32,
    pub hour: u32,
    pub minute: u32,
    pub second: u32,
    pub micros: u32,
}

impl Timestamp {
    /// Every field fits the digits the file-name format gives it.
    pub open spec fn wf(self) -> bool {
        &&& self.year <= 9999
        &&& 1 <= self.month <= 12
        &&& 1 <= self.day <= 31
        &&& self.hour <= 23
        &&& self.minute <= 59
        &&& self.second <= 59
        &&& self.micros <= 999_999
    }

    /// A clock reading as a well-formed timestamp, or `None` exactly
    /// when some field lies outside the format's range (a year outside
    /// 0..=9999, or the overflowed microseconds of a leap second).
    pub fn from_reading(r: ClockReading) -> (t: Option<Timestamp>)
        ensures
            t is Some <==> (0 <= r.year <= 9999 && 1 <= r.month <= 12 && 1 <= r.day <= 31
                && r.hour <= 23 && r.minute <= 59 && r.second <= 59 && r.micros <= 999_999),
            t is Some ==> t->0 == (Timestamp {
                year: r.year as u32,
                month: r.month,
                day: r.day,
                hour: r.hour,
                minute: r.minute,
                second: r.second,
                micros: r.micros,
            }),
            t is Some ==> t->0.wf(),
    {
        if 0 <= r.year && r.year <= 9999 && 1 <= r.month && r.month <= 12 && 1 <= r.day
            && r.day <= 31 && r.hour <= 23 && r.minute <= 59 && r.second <= 59
            && r.micros <= 999_999 {
            Some(
                Timestamp {
                    year: r.year as u32,
                    month: r.month,
                    day: r.day,
                    hour: r.hour,
                    minute: r.minute,
                    second: r.second,
                    micros: r.micros,
                },
            )
        } else {
            None
        }
    }
}

/// The character for one decimal digit.
pub open spec fn digit(d: int) -> char {
    if d == 0 {
        '0'
    } else if d == 1 {
        '1'
    } else if d == 2 {
        '2'
    } else if d == 3 {
        '3'
    } else if d == 4 {
        '4'
    } else if d == 5 {
        '5'
    } else if d == 6 {
        '6'
    } else if d == 7 {
        '7'
    } else if d == 8 {
        '8'
    } else {
        '9'
    }
}

/// `n` as two decimal digits, zero padded.
pub open spec fn two_digits(n: int) -> Seq<char> {
    seq![digit(n / 10), digit(n % 10)]
}

/// `n` as four decimal digits, zero padded.
pub open spec fn four_digits(n: int) -> Seq<char> {
    two_digits(n / 100) + two_digits(n % 100)
}

/// `n` as six decimal digits, zero padded.
pub open spec fn six_digits(n: int) -> Seq<char> {
    two_digits(n / 10000) + four_digits(n % 10000)
}

/// The 26 characters `DD-MM-YYYY_HH_MM_SS_ffffff` of a timestamp:
/// day, month, four-digit year, then hour, minute, second and
/// microseconds, each zero padded.
pub open spec fn timestamp_chars(t: Timestamp) -> Seq<char> {
    two_digits(t.day as int) + seq!['-'] + two_digits(t.month as int) + seq!['-'] + four_digits(
        t.year as int,
    ) + seq!['_'] + two_digits(t.hour as int) + seq!['_'] + two_digits(t.minute as int)
        + seq!['_'] + two_digits(t.second as int) + seq!['_'] + six_digits(t.micros as int)
}

/// The full output file name for one monitor: the formatted capture
/// instant, a dash, the sanitized monitor name, and the image extension.
pub open spec fn file_name_chars(t: Timestamp, name: Seq<char>) -> Seq<char> {
    timestamp_chars(t) + seq!['-'] + sanitize(name) + seq!['.', 'p', 'n', 'g']
}

/// Whether `c` is one of the characters removed from monitor names.
pub open spec fn is_removed(c: char) -> bool {
    c == '|' || c == '\\' || c == ':' || c == '/'
}

/// `s` with every removed character filtered out, order kept.
pub open spec fn sanitize(s: Seq<char>) -> Seq<char>
    decreases s.len(),
{
    if s.len() == 0 {
        s
    } else {
        let rest = sanitize(s.drop_last());
        if is_removed(s.last()) {
            rest
        } else {
            rest.push(s.last())
        }
    }
}

/// Relies on `String::push` of std: appends the given character to the
/// end of the string.
#[verifier::external_body]
fn push_char(s: &mut String, c: char)
    ensures
        final(s)@ == old(s)@.push(c),
{
    s.push(c);
}

/// The monitor name `filename` with the filesystem-hazardous characters
/// `|`, `\`, `:`, `/` removed.
pub fn normalized(filename: &str) -> (r: String)
    ensures
        r@ == sanitize(filename@),
{
    let n: usize = filename.unicode_len();
    let mut out = String::new();
    let mut i: usize = 0;
    while i < n
        invariant
            i <= n,
            n == filename@.len(),
            out@ == sanitize(filename@.take(i as int)),
        decreases n - i,
    {
        let c = filename.get_char(i);
        proof {
            assert(filename@.take(i + 1).drop_last() =~= filename@.take(i as int));
            assert(filename@.take(i + 1).last() == filename@[i as int]);
        }
        if !(c == '|' || c == '\\' || c == ':' || c == '/') {
            push_char(&mut out, c);
        }
        i = i + 1;
    }
    proof {
        assert(filename@.take(n as int) =~= filename@);
    }
    out
}

/// The character for the decimal digit `d`.
fn digit_char(d: u32) -> (c: char)
    requires
        d <= 9,
    ensures
        c == digit(d as int),
{
    if d == 0 {
        '0'
    } else if d == 1 {
        '1'
    } else if d == 2 {
        '2'
    } else if d == 3 {
        '3'
    } else if d == 4 {
        '4'
    } else if d == 5 {
        '5'
    } else if d == 6 {
        '6'
    } else if d == 7 {
        '7'
    } else if d == 8 {
        '8'
    } else {
        '9'
    }
}

/// Append `n` as two zero-padded decimal digits.
fn push_two_digits(s: &mut String, n: u32)
    requires
        n <= 99,
    ensures
        final(s)@ == old(s)@ + two_digits(n as int),
{
    push_char(s, digit_char(n / 10));
    push_char(s, digit_char(n % 10));
    assert(s@ =~= old(s)@ + two_digits(n as int));
}

/// Append `n` as four zero-padded decimal digits.
fn push_four_digits(s: &mut String, n: u32)
    requires
        n <= 9999,
    ensures
        final(s)@ == old(s)@ + four_digits(n as int),
{
    push_two_digits(s, n / 100);
    push_two_digits(s, n % 100);
    assert(s@ =~= old(s)@ + four_digits(n as int));
}

/// Append `n` as six zero-padded decimal digits.
fn push_six_digits(s: &mut String, n: u32)
    requires
        n <= 999_999,
    ensures
        final(s)@ == old(s)@ + six_digits(n as int),
{
    push_two_digits(s, n / 10000);
    push_four_digits(s, n % 10000);
    assert(s@ =~= old(s)@ + six_digits(n as int));
}

/// The timestamp `t` formatted as the 26 characters
/// `DD-MM-YYYY_HH_MM_SS_ffffff`.
pub fn format_timestamp(t: &Timestamp) -> (r: String)
    requires
        t.wf(),
    ensures
        r@ == timestamp_chars(*t),
        r@.len() == 26,
{
    let mut out = String::new();
    push_two_digits(&mut out, t.day);
    push_char(&mut out, '-');
    push_two_digits(&mut out, t.month);
    push_char(&mut out, '-');
    push_four_digits(&mut out, t.year);
    push_char(&mut out, '_');
    push_two_digits(&mut out, t.hour);
    push_char(&mut out, '_');
    push_two_digits(&mut out, t.minute);
    push_char(&mut out, '_');
    push_two_digits(&mut out, t.second);
    push_char(&mut out, '_');
    push_six_digits(&mut out, t.micros);
    assert(out@ =~= timestamp_chars(*t));
    out
}

/// The output file name for a monitor named `name`, captured at the
/// instant `t`: `<timestamp>-<sanitized name>.png`.
pub fn file_name_for(t: &Timestamp, name: &str) -> (r: String)
    requires
        t.wf(),
    ensures
        r@ == file_name_chars(*t, name@),
        r@.len() == 31 + sanitize(name@).len(),
{
    let mut out = format_timestamp(t);
    push_char(&mut out, '-');
    let cleaned = normalized(name);
    out.append(cleaned.as_str());
    out.append(".png");
    proof {
        reveal_strlit(".png");
        assert(".png"@ =~= seq!['.', 'p', 'n', 'g']);
        assert(out@ =~= file_name_chars(*t, name@));
    }
    out
}

/// The output file name for a monitor named `name`, captured now: the
/// wall clock is read at the moment of the call. `None` comes back only
/// when the clock reading does not fit the file-name format (a year
/// outside 0..=9999, or a leap second's overflowed microseconds).
pub fn file_name_now(name: &str) -> (r: Option<String>)
    ensures
        r is Some ==> exists|t: Timestamp|
            t.wf() && r->0@ == #[trigger] file_name_chars(t, name@),
        r is Some ==> r->0@.len() == 31 + sanitize(name@).len(),
{
    let reading = crate::clock::clock_now();
    match Timestamp::from_reading(reading) {
        Some(t) => {
            let out = file_name_for(&t, name);
            proof {
                assert(t.wf() && out@ == file_name_chars(t, name@));
            }
            Some(out)
        },
        None => None,
    }
}

/// Sanitizing is idempotent: a name that has already been sanitized is
/// left as it is.
pub proof fn lemma_sanitize_idempotent(s: Seq<char>)
    ensures
        sanitize(sanitize(s)) == sanitize(s),
    decreases s.len(),
{
    if s.len() == 0 {
    } else {
        lemma_sanitize_idempotent(s.drop_last());
        if is_removed(s.last()) {
        } else {
            let rest = sanitize(s.drop_last());
            assert(rest.push(s.last()).drop_last() =~= rest);
            assert(sanitize(rest.push(s.last())) == sanitize(rest).push(s.last()));
        }
    }
}

} // verus!
