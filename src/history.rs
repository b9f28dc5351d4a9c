//! Reading the fetch tool's log output: total commit count and the number
//! of distinct days with commits.

use vstd::prelude::*;
use std::collections::HashSet;
use chrono::Datelike;
use crate::error::GourceError;

verus! {

broadcast use vstd::std_specs::hash::group_hash_axioms;

/// Unicode `White_Space`, the property that `char::is_whitespace` tests.
pub open spec fn is_white_space(c: char) -> bool {
    let u = c as u32;
    (0x9 <= u <= 0xd) || u == 0x20 || u == 0x85 || u == 0xa0 || u == 0x1680 || (0x2000 <= u
        <= 0x200a) || u == 0x2028 || u == 0x2029 || u == 0x202f || u == 0x205f || u == 0x3000
}

pub open spec fn trim_start(s: Seq<char>) -> Seq<char>
    decreases s.len(),
{
    if s.len() > 0 && is_white_space(s[0]) {
        trim_start(s.drop_first())
    } else {
        s
    }
}

pub open spec fn trim_end(s: Seq<char>) -> Seq<char>
    decreases s.len(),
{
    if s.len() > 0 && is_white_space(s.last()) {
        trim_end(s.drop_last())
    } else {
        s
    }
}

/// `s` without leading and trailing white space.
pub open spec fn trimmed(s: Seq<char>) -> Seq<char> {
    trim_end(trim_start(s))
}

pub open spec fn is_ascii_digit(c: char) -> bool {
    '0' <= c <= '9'
}

/// The number that a string of ASCII digits stands for.
pub open spec fn digits_value(s: Seq<char>) -> int
    decreases s.len(),
{
    if s.len() == 0 {
        0
    } else {
        digits_value(s.drop_last()) * 10 + (s.last() as u32 - '0' as u32)
    }
}

/// An optional sign followed by one or more ASCII digits, and its value.
pub open spec fn signed_decimal(s: Seq<char>) -> Option<int> {
    let negative = s.len() > 0 && s[0] == '-';
    let body = if s.len() > 0 && (s[0] == '-' || s[0] == '+') {
        s.drop_first()
    } else {
        s
    };
    if body.len() > 0 && forall|i: int| 0 <= i < body.len() ==> is_ascii_digit(#[trigger] body[i]) {
        Some(
            if negative {
                -digits_value(body)
            } else {
                digits_value(body)
            },
        )
    } else {
        None
    }
}

/// `s` read as an `i32`: a signed decimal within the type's range.
pub open spec fn i32_text(s: Seq<char>) -> Option<i32> {
    match signed_decimal(s) {
        Some(v) => if i32::MIN <= v <= i32::MAX {
            Some(v as i32)
        } else {
            None
        },
        None => None,
    }
}

/// A line without the `'\r'` that ended it, if any.
pub open spec fn strip_cr(line: Seq<char>) -> Seq<char> {
    if line.len() > 0 && line.last() == '\r' {
        line.drop_last()
    } else {
        line
    }
}

/// Lines of `s` from the line that begins at `start`, scanning at `pos`.
pub open spec fn lines_from(s: Seq<char>, start: int, pos: int) -> Seq<Seq<char>>
    decreases s.len() - pos,
{
    if pos >= s.len() {
        if start < s.len() {
            seq![s.subrange(start, s.len() as int)]
        } else {
            seq![]
        }
    } else if s[pos] == '\n' {
        seq![strip_cr(s.subrange(start, pos))] + lines_from(s, pos + 1, pos + 1)
    } else {
        lines_from(s, start, pos + 1)
    }
}

/// The lines of `s`, as `str::lines` splits them: at each `'\n'`, which is
/// removed with a `'\r'` just before it; a last line without `'\n'` is kept
/// as it is.
pub open spec fn lines_of(s: Seq<char>) -> Seq<Seq<char>> {
    lines_from(s, 0, 0)
}

/// The calendar date (year, month, day) that chrono's
/// `NaiveDate::parse_from_str` reads from `s` with format `fmt`.
pub uninterp spec fn parsed_date(s: Seq<char>, fmt: Seq<char>) -> Option<(i32, u32, u32)>;

/// Format of the dates in the log output.
pub open spec fn date_format() -> Seq<char> {
    "%Y-%m-%d"@
}

pub open spec fn valid_ymd(d: (i32, u32, u32)) -> bool {
    1 <= d.1 <= 12 && 1 <= d.2 <= 31
}

/// The distinct dates among the first `n` lines of `out`.
pub open spec fn dates_in_lines(out: Seq<char>, n: int) -> Set<(i32, u32, u32)> {
    Set::new(
        |d: (i32, u32, u32)|
            exists|i: int|
                0 <= i < n && #[trigger] parsed_date(lines_of(out)[i], date_format()) == Some(d),
    )
}

/// The distinct days with commits in the log output `out`; lines that are
/// no date are skipped.
pub open spec fn commit_days(out: Seq<char>) -> Set<(i32, u32, u32)> {
    dates_in_lines(out, lines_of(out).len() as int)
}

#[verifier::external_type_specification]
#[verifier::external_body]
pub struct ExParseIntError(std::num::ParseIntError);

#[verifier::external_type_specification]
#[verifier::external_body]
pub struct ExChronoParseError(chrono::ParseError);

/// Relies on `str::trim`: leading and trailing `White_Space` removed.
#[verifier::external_body]
fn trim_text(s: &str) -> (r: &str)
    ensures
        r@ == trimmed(s@),
{
    s.trim()
}

/// Relies on `i32`'s `FromStr`: an optional sign, then decimal digits only,
/// within range.
#[verifier::external_body]
fn parse_i32(s: &str) -> (r: Result<i32, std::num::ParseIntError>)
    ensures
        r is Ok <==> i32_text(s@) is Some,
        r is Ok ==> r->Ok_0 == i32_text(s@)->Some_0,
{
    s.parse::<i32>()
}

/// Relies on `str::lines`.
#[verifier::external_body]
fn split_lines(s: &str) -> (r: Vec<&str>)
    ensures
        r@.map_values(|l: &str| l@) == lines_of(s@),
{
    s.lines().collect()
}

/// Relies on chrono's `NaiveDate::parse_from_str`, read through
/// `Datelike`; months lie in 1..=12 and days in 1..=31.
#[verifier::external_body]
fn parse_date(s: &str, fmt: &str) -> (r: Result<(i32, u32, u32), chrono::ParseError>)
    ensures
        r is Ok <==> parsed_date(s@, fmt@) is Some,
        r is Ok ==> r->Ok_0 == parsed_date(s@, fmt@)->Some_0 && valid_ymd(r->Ok_0),
{
    let d = chrono::NaiveDate::parse_from_str(s, fmt)?;
    Ok((d.year(), d.month(), d.day()))
}

/// A number that tells valid dates apart.
pub open spec fn date_key(d: (i32, u32, u32)) -> int {
    ((d.0 as int + 0x8000_0000) * 16 + d.1) * 32 + d.2
}

proof fn lemma_date_key_injective(a: (i32, u32, u32), b: (i32, u32, u32))
    requires
        valid_ymd(a),
        valid_ymd(b),
        date_key(a) == date_key(b),
    ensures
        a == b,
{
    let ya = a.0 as int + 0x8000_0000;
    let yb = b.0 as int + 0x8000_0000;
    let ra = a.1 as int * 32 + a.2 as int;
    let rb = b.1 as int * 32 + b.2 as int;
    assert(ya == yb && ra == rb) by (nonlinear_arith)
        requires
            ya * 512 + ra == yb * 512 + rb,
            0 <= ra < 512,
            0 <= rb < 512,
            ya >= 0,
            yb >= 0,
    {
        if ya < yb {
            assert(ya * 512 + 512 <= yb * 512);
        } else if yb < ya {
            assert(yb * 512 + 512 <= ya * 512);
        }
    }
    assert(a.1 == b.1 && a.2 == b.2) by (nonlinear_arith)
        requires
            a.1 as int * 32 + a.2 as int == b.1 as int * 32 + b.2 as int,
            1 <= a.2 <= 31,
            1 <= b.2 <= 31,
    {
        if a.1 < b.1 {
            assert(a.1 as int * 32 + 32 <= b.1 as int * 32);
        } else if b.1 < a.1 {
            assert(b.1 as int * 32 + 32 <= a.1 as int * 32);
        }
    }
}

/// The total commit count printed by the fetch tool.
pub fn parse_commit_count(output: &str) -> (r: Result<i32, GourceError>)
    ensures
        match i32_text(trimmed(output@)) {
            Some(n) => r == Ok::<i32, GourceError>(n),
            None => r == Err::<i32, GourceError>(GourceError::CommitCountFailed),
        },
{
    match parse_i32(trim_text(output)) {
        Ok(n) => Ok(n),
        Err(_) => Err(GourceError::CommitCountFailed),
    }
}

/// The number of distinct days among the dated lines of the log output.
pub fn count_commit_days(output: &str) -> (r: u64)
    ensures
        commit_days(output@).finite(),
        r == commit_days(output@).len(),
{
    let lines = split_lines(output);
    let ghost ls = lines_of(output@);
    let mut seen: HashSet<u64> = HashSet::new();
    let mut count: u64 = 0;
    let ghost mut dates: Set<(i32, u32, u32)> = Set::empty();
    let mut i: usize = 0;
    while i < lines.len()
        invariant
            i <= lines@.len(),
            lines@.map_values(|l: &str| l@) == ls,
            ls == lines_of(output@),
            dates == dates_in_lines(output@, i as int),
            dates.finite(),
            count == dates.len(),
            count <= i,
            forall|x: (i32, u32, u32)| #[trigger] dates.contains(x) ==> valid_ymd(x),
            forall|k: u64|
                #[trigger] seen@.contains(k) <==> exists|x: (i32, u32, u32)|
                    dates.contains(x) && date_key(x) == k,
        decreases lines@.len() - i,
    {
        let line: &str = lines[i];
        assert(line@ == ls[i as int]);
        match parse_date(line, "%Y-%m-%d") {
            Ok(d) => {
                assert(0 <= date_key(d) < 0x1_0000_0000 * 512) by (nonlinear_arith)
                    requires
                        valid_ymd(d),
                        date_key(d) == ((d.0 as int + 0x8000_0000) * 16 + d.1) * 32 + d.2,
                        -0x8000_0000 <= d.0 < 0x8000_0000;
                let key: u64 = ((d.0 as i64 + 0x8000_0000) as u64 * 16 + d.1 as u64) * 32
                    + d.2 as u64;
                assert(key == date_key(d));
                let fresh = seen.insert(key);
                proof {
                    if !fresh {
                        let x = choose|x: (i32, u32, u32)| dates.contains(x) && date_key(x) == key;
                        lemma_date_key_injective(x, d);
                    }
                    if fresh {
                        assert(!dates.contains(d));
                    }
                    dates = dates.insert(d);
                }
                if fresh {
                    count = count + 1;
                }
            },
            Err(_) => {},
        }
        assert(dates =~= dates_in_lines(output@, i + 1));
        i = i + 1;
    }
    count
}

} // verus!
