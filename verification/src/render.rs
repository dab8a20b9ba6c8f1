//! Rendering back into the input's `h:mma` convention: hour 1-12 with no
//! leading zero, minute zero-padded to two digits, lowercase am/pm with no
//! space, and the composition of the final output line.

use vstd::prelude::*;

verus! {

pub open spec fn digit_char(d: int) -> char {
    if d == 0 {
        '0'
    } else if d == 1 {
        '1'
    } else if d == 2 {
        '2'
    } else if d == 3 {
        '3'
    } else if d == 4 {
        '4'
    } else if d == 5 {
        '5'
    } else if d == 6 {
        '6'
    } else if d == 7 {
        '7'
    } else if d == 8 {
        '8'
    } else {
        '9'
    }
}

/// The 12-hour clock hour shown for a 24-hour clock hour.
pub open spec fn hour12_of(h24: int) -> int {
    if h24 % 12 == 0 {
        12
    } else {
        h24 % 12
    }
}

/// The `h:mma` rendering of a wall-clock time: 1-12 hour without leading
/// zero, `:`, two-digit minute, lowercase `am`/`pm`.
pub open spec fn time_string_of(h24: int, m: int) -> Seq<char> {
    let h12 = hour12_of(h24);
    let hs = if h12 >= 10 {
        seq!['1', digit_char(h12 - 10)]
    } else {
        seq![digit_char(h12)]
    };
    let suffix = if h24 < 12 {
        seq!['a', 'm']
    } else {
        seq!['p', 'm']
    };
    hs + seq![':'] + seq![digit_char(m / 10), digit_char(m % 10)] + suffix
}

fn digit_str(d: u32) -> (r: &'static str)
    requires
        d <= 9,
    ensures
        r@ == seq![digit_char(d as int)],
{
    let r: &'static str = match d {
        0 => "0",
        1 => "1",
        2 => "2",
        3 => "3",
        4 => "4",
        5 => "5",
        6 => "6",
        7 => "7",
        8 => "8",
        _ => "9",
    };
    proof {
        reveal_strlit("0");
        reveal_strlit("1");
        reveal_strlit("2");
        reveal_strlit("3");
        reveal_strlit("4");
        reveal_strlit("5");
        reveal_strlit("6");
        reveal_strlit("7");
        reveal_strlit("8");
        reveal_strlit("9");
        assert(r@ =~= seq![digit_char(d as int)]);
    }
    r
}

/// Renders a wall-clock time in the input's convention.
pub fn format_time(h24: u32, m: u32) -> (r: String)
    requires
        h24 < 24,
        m < 60,
    ensures
        r@ == time_string_of(h24 as int, m as int),
{
    let h12: u32 = if h24 % 12 == 0 {
        12
    } else {
        h24 % 12
    };
    let mut out = String::new();
    if h12 >= 10 {
        out.append("1");
        out.append(digit_str(h12 - 10));
    } else {
        out.append(digit_str(h12));
    }
    out.append(":");
    out.append(digit_str(m / 10));
    out.append(digit_str(m % 10));
    if h24 < 12 {
        out.append("am");
    } else {
        out.append("pm");
    }
    proof {
        reveal_strlit("1");
        reveal_strlit(":");
        reveal_strlit("am");
        reveal_strlit("pm");
        assert(out@ =~= time_string_of(h24 as int, m as int));
    }
    out
}

/// One endpoint re-expressed in the target zone: the `h:mma` rendering
/// and the zone's abbreviation at that instant.
pub struct RenderedTime {
    pub time: String,
    pub abbrev: String,
}

/// The composed output line: the original line, a space, and the
/// parenthesized converted range `(<start>-<end> <abbrev>)`.
pub open spec fn output_of(line: Seq<char>, start: Seq<char>, end: Seq<char>, abbrev: Seq<char>) -> Seq<char> {
    line + seq![' ', '('] + start + seq!['-'] + end + seq![' '] + abbrev + seq![')']
}

/// The final render unit for one line: the original text untouched, the
/// two endpoints re-expressed in the target zone, and the target zone's
/// abbreviation at the start instant.
pub struct ConvertedRange {
    pub original_line: String,
    pub start_in_target: String,
    pub end_in_target: String,
    pub target_tz_abbreviation: String,
}

impl ConvertedRange {
    /// Renders the range: the original line with the converted range
    /// appended in parentheses.
    pub fn render(&self) -> (r: String)
        ensures
            r@ == output_of(
                self.original_line@,
                self.start_in_target@,
                self.end_in_target@,
                self.target_tz_abbreviation@,
            ),
    {
        let mut out = self.original_line.clone();
        out.append(" (");
        out.append(self.start_in_target.as_str());
        out.append("-");
        out.append(self.end_in_target.as_str());
        out.append(" ");
        out.append(self.target_tz_abbreviation.as_str());
        out.append(")");
        proof {
            reveal_strlit(" (");
            reveal_strlit("-");
            reveal_strlit(" ");
            reveal_strlit(")");
            assert(out@ =~= output_of(
                self.original_line@,
                self.start_in_target@,
                self.end_in_target@,
                self.target_tz_abbreviation@,
            ));
        }
        out
    }
}

} // verus!
