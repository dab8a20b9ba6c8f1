//! Civil (zone-less) wall-clock values and the fragment parsers that build
//! them: the fixed twelve-entry month lookup, the day-number parser, and
//! the `h:mm` + am/pm time parser.

use vstd::prelude::*;
use crate::scan::{CharClass, class_check, digit_val, digits_val, is_digit, lemma_digits_val_bounds,
    lemma_run_end, run_end, scan_class};
use crate::extract::time_end;

verus! {

/// Morning or afternoon half of the 12-hour clock.
#[derive(Clone, Copy, PartialEq, Eq, Structural, Debug)]
pub enum Meridiem {
    Am,
    Pm,
}

/// An unvalidated civil wall-clock tuple: a calendar date and a 12-hour
/// clock time, with no timezone attached. `wf` bounds the month, hour and
/// minute; the day is deliberately not checked against the month's length
/// (an impossible date is rejected later, when the value is resolved
/// against the source zone).
#[derive(Clone, Copy, Debug)]
pub struct CivilDateTime {
    pub year: i32,
    pub month: u32,
    pub day: u32,
    pub hour12: u32,
    pub minute: u32,
    pub meridiem: Meridiem,
}

/// The 24-hour clock hour for a 12-hour clock hour and meridiem.
pub open spec fn hour24_of(h12: int, pm: bool) -> int {
    if h12 == 12 {
        if pm {
            12
        } else {
            0
        }
    } else if pm {
        h12 + 12
    } else {
        h12
    }
}

impl CivilDateTime {
    pub open spec fn wf(self) -> bool {
        1 <= self.month <= 12 && 1 <= self.hour12 <= 12 && self.minute <= 59
    }

    /// The hour on the 24-hour clock.
    pub open spec fn hour24(self) -> int {
        hour24_of(self.hour12 as int, self.meridiem is Pm)
    }
}

pub fn to_hour24(h12: u32, mer: Meridiem) -> (r: u32)
    requires
        1 <= h12 <= 12,
    ensures
        r == hour24_of(h12 as int, mer is Pm),
        r <= 23,
{
    match mer {
        Meridiem::Am => if h12 == 12 {
            0
        } else {
            h12
        },
        Meridiem::Pm => if h12 == 12 {
            12
        } else {
            h12 + 12
        },
    }
}

/// Case-insensitive match of `c` against the lower-case letter `l`.
pub open spec fn ci_eq(c: char, l: char) -> bool {
    c == l || c as int == l as int - 32
}

pub open spec fn month_matches(s: Seq<char>, a: char, b: char, c: char) -> bool {
    s.len() == 3 && ci_eq(s[0], a) && ci_eq(s[1], b) && ci_eq(s[2], c)
}

/// The fixed twelve-entry month lookup: a case-insensitive three-letter
/// month abbreviation to its 1-12 month number.
pub open spec fn month_of(s: Seq<char>) -> Option<int> {
    if month_matches(s, 'j', 'a', 'n') {
        Some(1)
    } else if month_matches(s, 'f', 'e', 'b') {
        Some(2)
    } else if month_matches(s, 'm', 'a', 'r') {
        Some(3)
    } else if month_matches(s, 'a', 'p', 'r') {
        Some(4)
    } else if month_matches(s, 'm', 'a', 'y') {
        Some(5)
    } else if month_matches(s, 'j', 'u', 'n') {
        Some(6)
    } else if month_matches(s, 'j', 'u', 'l') {
        Some(7)
    } else if month_matches(s, 'a', 'u', 'g') {
        Some(8)
    } else if month_matches(s, 's', 'e', 'p') {
        Some(9)
    } else if month_matches(s, 'o', 'c', 't') {
        Some(10)
    } else if month_matches(s, 'n', 'o', 'v') {
        Some(11)
    } else if month_matches(s, 'd', 'e', 'c') {
        Some(12)
    } else {
        None
    }
}

fn ci_eq_exec(c: char, l: char) -> (r: bool)
    ensures
        r == ci_eq(c, l),
{
    c == l || c as u32 + 32 == l as u32
}

fn month_matches_exec(s: &str, a: char, b: char, c: char) -> (r: bool)
    requires
        s@.len() == 3,
    ensures
        r == month_matches(s@, a, b, c),
{
    ci_eq_exec(s.get_char(0), a) && ci_eq_exec(s.get_char(1), b) && ci_eq_exec(s.get_char(2), c)
}

/// Maps a month abbreviation to its 1-12 month number, or `None` when the
/// token is not one of the twelve known abbreviations.
pub fn month_number(s: &str) -> (r: Option<u32>)
    ensures
        match r {
            Some(m) => month_of(s@) == Some(m as int) && 1 <= m <= 12,
            None => month_of(s@) is None,
        },
{
    if s.unicode_len() != 3 {
        return None;
    }
    if month_matches_exec(s, 'j', 'a', 'n') {
        Some(1)
    } else if month_matches_exec(s, 'f', 'e', 'b') {
        Some(2)
    } else if month_matches_exec(s, 'm', 'a', 'r') {
        Some(3)
    } else if month_matches_exec(s, 'a', 'p', 'r') {
        Some(4)
    } else if month_matches_exec(s, 'm', 'a', 'y') {
        Some(5)
    } else if month_matches_exec(s, 'j', 'u', 'n') {
        Some(6)
    } else if month_matches_exec(s, 'j', 'u', 'l') {
        Some(7)
    } else if month_matches_exec(s, 'a', 'u', 'g') {
        Some(8)
    } else if month_matches_exec(s, 's', 'e', 'p') {
        Some(9)
    } else if month_matches_exec(s, 'o', 'c', 't') {
        Some(10)
    } else if month_matches_exec(s, 'n', 'o', 'v') {
        Some(11)
    } else if month_matches_exec(s, 'd', 'e', 'c') {
        Some(12)
    } else {
        None
    }
}

/// What parsing a day token as an unsigned number yields: the numeric
/// value of a non-empty all-digit token whose value fits in a `u32`.
pub open spec fn day_of(s: Seq<char>) -> Option<int> {
    if s.len() >= 1 && (forall|j: int| 0 <= j < s.len() ==> is_digit(s[j])) && digits_val(s)
        <= u32::MAX {
        Some(digits_val(s))
    } else {
        None
    }
}

proof fn lemma_digits_val_prefix(s: Seq<char>, j: int)
    requires
        0 <= j <= s.len(),
        forall|k: int| 0 <= k < s.len() ==> is_digit(s[k]),
    ensures
        digits_val(s.subrange(0, j)) <= digits_val(s),
    decreases s.len() - j,
{
    if j == s.len() {
        assert(s.subrange(0, j) =~= s);
    } else {
        lemma_digits_val_prefix(s, j + 1);
        let a = s.subrange(0, j);
        let b = s.subrange(0, j + 1);
        assert(b.drop_last() =~= a);
        assert(forall|k: int| 0 <= k < a.len() ==> is_digit(a[k]));
        lemma_digits_val_bounds(a);
        assert(digits_val(b) == digits_val(a) * 10 + digit_val(s[j]));
        assert(digits_val(a) * 10 >= digits_val(a));
    }
}

/// Parses a day token as an unsigned number, or `None` when the token is
/// empty, holds a non-digit, or overflows a `u32`.
pub fn parse_day(s: &str) -> (r: Option<u32>)
    ensures
        match r {
            Some(d) => day_of(s@) == Some(d as int),
            None => day_of(s@) is None,
        },
{
    let n = s.unicode_len();
    if n == 0 {
        return None;
    }
    let mut i: usize = 0;
    let mut acc: u64 = 0;
    while i < n
        invariant
            i <= n,
            n == s@.len(),
            forall|j: int| 0 <= j < i ==> is_digit(s@[j]),
            acc == digits_val(s@.subrange(0, i as int)),
            acc <= u32::MAX,
        decreases n - i,
    {
        let c = s.get_char(i);
        if !class_check(c, CharClass::Digit) {
            return None;
        }
        let d: u64 = (c as u32 - 48) as u64;
        proof {
            assert(s@.subrange(0, i as int + 1).drop_last() =~= s@.subrange(0, i as int));
            assert(d == digit_val(s@[i as int]));
        }
        let next: u64 = acc * 10 + d;
        proof {
            assert(next == digits_val(s@.subrange(0, i as int + 1)));
        }
        if next > 0xffff_ffffu64 {
            proof {
                if forall|k: int| 0 <= k < s@.len() ==> is_digit(s@[k]) {
                    lemma_digits_val_prefix(s@, i as int + 1);
                }
            }
            return None;
        }
        acc = next;
        i = i + 1;
    }
    proof {
        assert(s@.subrange(0, n as int) =~= s@);
    }
    Some(acc as u32)
}

/// What parsing a time fragment yields: the 12-hour clock hour, the minute
/// and the meridiem of a fragment that is exactly `h:mm` (1-2 digit hour)
/// followed by an am/pm marker in either case, with the hour in 1..=12 and
/// the minute in 0..=59.
pub open spec fn time_of(t: Seq<char>) -> Option<(int, int, bool)> {
    let he = run_end(t, 0, CharClass::Digit);
    match time_end(t, 0) {
        None => None,
        Some(e) => {
            if e != t.len() {
                None
            } else {
                let h = digits_val(t.subrange(0, he));
                let m = digits_val(t.subrange(he + 1, he + 3));
                let pm = t[he + 3] == 'p' || t[he + 3] == 'P';
                if 1 <= h <= 12 && m <= 59 {
                    Some((h, m, pm))
                } else {
                    None
                }
            }
        },
    }
}

/// Parses a time fragment into hour, minute and meridiem, or `None` when
/// the fragment is malformed or its values are out of range.
pub fn parse_time(t: &str) -> (r: Option<(u32, u32, Meridiem)>)
    ensures
        match r {
            Some((h, m, mer)) => time_of(t@) == Some((h as int, m as int, mer is Pm)) && 1 <= h
                <= 12 && m <= 59,
            None => time_of(t@) is None,
        },
{
    let n = t.unicode_len();
    let he = scan_class(t, 0, CharClass::Digit);
    let e = match crate::extract::time_end_exec(t, 0) {
        Some(e) => e,
        None => {
            return None;
        },
    };
    if e != n {
        return None;
    }
    proof {
        lemma_run_end(t@, 0, CharClass::Digit);
        lemma_digits_val_bounds(t@.subrange(0, he as int));
        lemma_digits_val_bounds(t@.subrange(he as int + 1, he as int + 3));
    }
    let h: u32 = if he == 1 {
        s_digit(t, 0)
    } else {
        s_digit(t, 0) * 10 + s_digit(t, 1)
    };
    let m: u32 = s_digit(t, he + 1) * 10 + s_digit(t, he + 2);
    proof {
        assert(t@.subrange(0, he as int)[0] == t@[0]);
        if he == 2 {
            assert(t@.subrange(0, he as int)[1] == t@[1]);
        }
        assert(t@.subrange(he as int + 1, he as int + 3)[0] == t@[he as int + 1]);
        assert(t@.subrange(he as int + 1, he as int + 3)[1] == t@[he as int + 2]);
    }
    if !(1 <= h && h <= 12 && m <= 59) {
        return None;
    }
    let a = t.get_char(he + 3);
    let mer = if a == 'p' || a == 'P' {
        Meridiem::Pm
    } else {
        Meridiem::Am
    };
    Some((h, m, mer))
}

/// The numeric value of the digit character at position `i`.
fn s_digit(s: &str, i: usize) -> (r: u32)
    requires
        i < s@.len(),
        is_digit(s@[i as int]),
    ensures
        r == digit_val(s@[i as int]),
        r <= 9,
{
    s.get_char(i) as u32 - 48
}

} // verus!
