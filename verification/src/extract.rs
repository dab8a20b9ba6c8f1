//! The extractor: matches a line of free text against the rigid
//! meeting-time grammar
//!
//! ```text
//! <Weekday> <Month3> <Day>[,] <H>:<MM>(am|pm)-<H>:<MM>(am|pm) <TzAbbrev>
//! ```
//!
//! where `<Weekday>` is a run of letters, `<Month3>` exactly three letters,
//! `<Day>` one or two digits, each time a 1-2 digit hour with a two-digit
//! minute and an am/pm marker (either case), and `<TzAbbrev>` a token of one
//! to three upper-case letters ending in `T`. The match may start anywhere
//! in the line and may be followed by arbitrary text; the leftmost match
//! wins. The weekday and the trailing timezone token are decorative: they
//! are carried through unvalidated.

use vstd::prelude::*;
use crate::scan::{CharClass, class_check, is_digit, run_end, scan_class};

verus! {

/// The pieces a successful match captures, as sequences of characters.
/// `date` spans weekday through day; `month` and `day` are its second and
/// third tokens; `start` and `end` are the two time fragments.
pub struct Captures {
    pub date: Seq<char>,
    pub month: Seq<char>,
    pub day: Seq<char>,
    pub start: Seq<char>,
    pub end: Seq<char>,
}

/// The fragments handed on to the zoned converter, as the extractor
/// produces them for one successfully matched line.
pub struct ExtractedFields {
    /// `"<Weekday> <Month3> <Day>"`, without the optional comma.
    pub date_fragment: String,
    /// The start time, `"h:mm(am|pm)"`.
    pub start_fragment: String,
    /// The end time, `"h:mm(am|pm)"`.
    pub end_fragment: String,
}

/// The captured fragments together with the date's month and day tokens.
pub struct MatchedLine {
    pub fields: ExtractedFields,
    pub month: String,
    pub day: String,
}

pub open spec fn is_am_pm_letter(c: char) -> bool {
    c == 'a' || c == 'A' || c == 'p' || c == 'P'
}

pub open spec fn is_m_letter(c: char) -> bool {
    c == 'm' || c == 'M'
}

/// Where a time fragment (`h:mm` plus am/pm marker) that starts at `j`
/// ends, if one starts there: a 1-2 digit hour, `:`, exactly two digits,
/// and a two-letter am/pm marker in either case.
pub open spec fn time_end(s: Seq<char>, j: int) -> Option<int> {
    let he = run_end(s, j, CharClass::Digit);
    if he - j < 1 || he - j > 2 {
        None
    } else if he + 5 > s.len() {
        None
    } else if s[he] != ':' {
        None
    } else if !is_digit(s[he + 1]) || !is_digit(s[he + 2]) {
        None
    } else if !is_am_pm_letter(s[he + 3]) || !is_m_letter(s[he + 4]) {
        None
    } else {
        Some(he + 5)
    }
}

/// Matches the grammar at position `i` of `s` and returns the captured
/// fragments, or `None` when the grammar does not match there.
pub open spec fn match_at(s: Seq<char>, i: int) -> Option<Captures> {
    let e1 = run_end(s, i, CharClass::Letter);
    let e2 = run_end(s, e1, CharClass::Space);
    let e3 = run_end(s, e2, CharClass::Letter);
    let e4 = run_end(s, e3, CharClass::Space);
    let e5 = run_end(s, e4, CharClass::Digit);
    if e1 == i || e2 == e1 || e3 - e2 != 3 || e4 == e3 || e5 - e4 < 1 || e5 - e4 > 2 {
        None
    } else {
        let p = if e5 < s.len() && s[e5] == ',' {
            e5 + 1
        } else {
            e5
        };
        let q = run_end(s, p, CharClass::Space);
        match time_end(s, q) {
            None => None,
            Some(t1) => {
                if t1 >= s.len() || s[t1] != '-' {
                    None
                } else {
                    match time_end(s, t1 + 1) {
                        None => None,
                        Some(t2) => {
                            let w = run_end(s, t2, CharClass::Space);
                            let u = run_end(s, w, CharClass::Upper);
                            if w == t2 || u - w < 1 || u - w > 3 || s[u - 1] != 'T' {
                                None
                            } else {
                                Some(Captures {
                                    date: s.subrange(i, e5),
                                    month: s.subrange(e2, e3),
                                    day: s.subrange(e4, e5),
                                    start: s.subrange(q, t1),
                                    end: s.subrange(t1 + 1, t2),
                                })
                            }
                        },
                    }
                }
            },
        }
    }
}

/// The leftmost match of the grammar at or after position `i`.
pub open spec fn search_from(s: Seq<char>, i: int) -> Option<Captures>
    decreases s.len() - i,
{
    if i < 0 || i > s.len() {
        None
    } else if match_at(s, i) is Some {
        match_at(s, i)
    } else if i == s.len() {
        None
    } else {
        search_from(s, i + 1)
    }
}

/// What the extractor yields on a line: the leftmost match of the grammar,
/// or `None` when no position of the line matches.
pub open spec fn extract_spec(s: Seq<char>) -> Option<Captures> {
    search_from(s, 0)
}

proof fn lemma_search_skip(s: Seq<char>, i: int)
    requires
        0 <= i <= s.len(),
        forall|j: int| 0 <= j < i ==> match_at(s, j) is None,
    ensures
        search_from(s, 0) == search_from(s, i),
    decreases i,
{
    if i > 0 {
        lemma_search_skip(s, i - 1);
        assert(search_from(s, i - 1) == search_from(s, i));
    }
}

/// Matches a time fragment at position `j`, returning its end.
pub(crate) fn time_end_exec(s: &str, j: usize) -> (r: Option<usize>)
    requires
        j <= s@.len(),
    ensures
        match r {
            Some(t) => time_end(s@, j as int) == Some(t as int) && j < t && t <= s@.len(),
            None => time_end(s@, j as int) is None,
        },
{
    let n = s.unicode_len();
    let he = scan_class(s, j, CharClass::Digit);
    if he - j < 1 || he - j > 2 {
        return None;
    }
    if n - he < 5 {
        return None;
    }
    if s.get_char(he) != ':' {
        return None;
    }
    if !class_check(s.get_char(he + 1), CharClass::Digit) || !class_check(
        s.get_char(he + 2),
        CharClass::Digit,
    ) {
        return None;
    }
    let a = s.get_char(he + 3);
    let m = s.get_char(he + 4);
    if !(a == 'a' || a == 'A' || a == 'p' || a == 'P') {
        return None;
    }
    if !(m == 'm' || m == 'M') {
        return None;
    }
    Some(he + 5)
}

/// Matches the whole grammar at position `i`, returning the captured
/// fragments as strings.
fn match_at_exec(s: &str, i: usize) -> (r: Option<MatchedLine>)
    requires
        i <= s@.len(),
    ensures
        match r {
            Some(ml) => match_at(s@, i as int) matches Some(c) && ml.fields.date_fragment@
                == c.date && ml.month@ == c.month && ml.day@ == c.day && ml.fields.start_fragment@
                == c.start && ml.fields.end_fragment@ == c.end,
            None => match_at(s@, i as int) is None,
        },
{
    let n = s.unicode_len();
    let e1 = scan_class(s, i, CharClass::Letter);
    let e2 = scan_class(s, e1, CharClass::Space);
    let e3 = scan_class(s, e2, CharClass::Letter);
    let e4 = scan_class(s, e3, CharClass::Space);
    let e5 = scan_class(s, e4, CharClass::Digit);
    if e1 == i || e2 == e1 || e3 - e2 != 3 || e4 == e3 || e5 - e4 < 1 || e5 - e4 > 2 {
        return None;
    }
    let p = if e5 < n && s.get_char(e5) == ',' {
        e5 + 1
    } else {
        e5
    };
    let q = scan_class(s, p, CharClass::Space);
    let t1 = match time_end_exec(s, q) {
        Some(t) => t,
        None => {
            return None;
        },
    };
    if t1 >= n || s.get_char(t1) != '-' {
        return None;
    }
    let t2 = match time_end_exec(s, t1 + 1) {
        Some(t) => t,
        None => {
            return None;
        },
    };
    let w = scan_class(s, t2, CharClass::Space);
    let u = scan_class(s, w, CharClass::Upper);
    if w == t2 || u - w < 1 || u - w > 3 || s.get_char(u - 1) != 'T' {
        return None;
    }
    Some(
        MatchedLine {
            fields: ExtractedFields {
                date_fragment: s.substring_char(i, e5).to_owned(),
                start_fragment: s.substring_char(q, t1).to_owned(),
                end_fragment: s.substring_char(t1 + 1, t2).to_owned(),
            },
            month: s.substring_char(e2, e3).to_owned(),
            day: s.substring_char(e4, e5).to_owned(),
        },
    )
}

/// Scans the line for the leftmost position where the grammar matches and
/// returns the captured fragments, or `None` when no position matches.
pub fn extract_line(line: &str) -> (r: Option<MatchedLine>)
    ensures
        match r {
            Some(ml) => extract_spec(line@) matches Some(c) && ml.fields.date_fragment@ == c.date
                && ml.month@ == c.month && ml.day@ == c.day && ml.fields.start_fragment@ == c.start
                && ml.fields.end_fragment@ == c.end,
            None => extract_spec(line@) is None,
        },
{
    let n = line.unicode_len();
    let mut i: usize = 0;
    loop
        invariant
            i <= n,
            n == line@.len(),
            forall|j: int| 0 <= j < i ==> match_at(line@, j) is None,
        decreases n - i,
    {
        let m = match_at_exec(line, i);
        if m.is_some() {
            proof {
                lemma_search_skip(line@, i as int);
            }
            return m;
        }
        if i == n {
            proof {
                lemma_search_skip(line@, n as int);
            }
            return None;
        }
        i = i + 1;
    }
}

/// Runs the extractor on a line: the fragments of the leftmost grammar
/// match, or `None` when the line does not match the grammar anywhere.
pub fn extract(line: &str) -> (r: Option<ExtractedFields>)
    ensures
        match r {
            Some(f) => extract_spec(line@) matches Some(c) && f.date_fragment@ == c.date
                && f.start_fragment@ == c.start && f.end_fragment@ == c.end,
            None => extract_spec(line@) is None,
        },
{
    match extract_line(line) {
        Some(ml) => Some(ml.fields),
        None => None,
    }
}

} // verus!
