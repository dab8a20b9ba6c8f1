//! Character classification and maximal-run scanning over string views.
//!
//! The grammar of a meeting-time line is matched by taking maximal runs of
//! characters of a given class (letters, digits, whitespace, upper-case
//! letters). `run_end` is the specification of such a run and `scan_class`
//! the verified scanner that computes it.

use vstd::prelude::*;

verus! {

/// The character classes the grammar scans over.
#[derive(Clone, Copy, PartialEq, Eq, Structural)]
pub enum CharClass {
    /// An ASCII letter, upper or lower case.
    Letter,
    /// An ASCII decimal digit.
    Digit,
    /// ASCII whitespace: space, tab, carriage return or line feed.
    Space,
    /// An ASCII upper-case letter.
    Upper,
}

pub open spec fn is_letter(c: char) -> bool {
    ('a' <= c && c <= 'z') || ('A' <= c && c <= 'Z')
}

pub open spec fn is_digit(c: char) -> bool {
    '0' <= c && c <= '9'
}

pub open spec fn is_space(c: char) -> bool {
    c == ' ' || c == '\t' || c == '\r' || c == '\n'
}

pub open spec fn is_upper(c: char) -> bool {
    'A' <= c && c <= 'Z'
}

pub open spec fn class_holds(k: CharClass, c: char) -> bool {
    match k {
        CharClass::Letter => is_letter(c),
        CharClass::Digit => is_digit(c),
        CharClass::Space => is_space(c),
        CharClass::Upper => is_upper(c),
    }
}

/// The end of the maximal run of class-`k` characters that starts at `i`:
/// the first position at or after `i` whose character is not of class `k`.
pub open spec fn run_end(s: Seq<char>, i: int, k: CharClass) -> int
    decreases s.len() - i,
{
    if i < 0 || i >= s.len() {
        i
    } else if class_holds(k, s[i]) {
        run_end(s, i + 1, k)
    } else {
        i
    }
}

pub proof fn lemma_run_end(s: Seq<char>, i: int, k: CharClass)
    requires
        0 <= i <= s.len(),
    ensures
        i <= run_end(s, i, k) <= s.len(),
        forall|j: int| i <= j < run_end(s, i, k) ==> class_holds(k, s[j]),
        run_end(s, i, k) < s.len() ==> !class_holds(k, s[run_end(s, i, k)]),
    decreases s.len() - i,
{
    if i < s.len() && class_holds(k, s[i]) {
        lemma_run_end(s, i + 1, k);
    }
}

pub fn class_check(c: char, k: CharClass) -> (r: bool)
    ensures
        r == class_holds(k, c),
{
    match k {
        CharClass::Letter => ('a' <= c && c <= 'z') || ('A' <= c && c <= 'Z'),
        CharClass::Digit => '0' <= c && c <= '9',
        CharClass::Space => c == ' ' || c == '\t' || c == '\r' || c == '\n',
        CharClass::Upper => 'A' <= c && c <= 'Z',
    }
}

/// Advances from `from` over characters of class `k` and returns the end of
/// the maximal run.
pub fn scan_class(s: &str, from: usize, k: CharClass) -> (r: usize)
    requires
        from <= s@.len(),
    ensures
        r == run_end(s@, from as int, k),
        from <= r <= s@.len(),
{
    let n = s.unicode_len();
    let mut i = from;
    while i < n && class_check(s.get_char(i), k)
        invariant
            from <= i <= n,
            n == s@.len(),
            run_end(s@, from as int, k) == run_end(s@, i as int, k),
        decreases n - i,
    {
        i = i + 1;
    }
    proof {
        lemma_run_end(s@, i as int, k);
    }
    i
}

/// The numeric value of a digit character.
pub open spec fn digit_val(c: char) -> int {
    c as int - '0' as int
}

/// The numeric value of a sequence of digit characters, most significant
/// first.
pub open spec fn digits_val(s: Seq<char>) -> int
    decreases s.len(),
{
    if s.len() == 0 {
        0
    } else {
        digits_val(s.drop_last()) * 10 + digit_val(s.last())
    }
}

pub proof fn lemma_digits_val_bounds(s: Seq<char>)
    requires
        forall|j: int| 0 <= j < s.len() ==> is_digit(s[j]),
    ensures
        0 <= digits_val(s),
        s.len() == 1 ==> digits_val(s) == digit_val(s[0]),
        s.len() == 2 ==> digits_val(s) == digit_val(s[0]) * 10 + digit_val(s[1]),
    decreases s.len(),
{
    if s.len() > 0 {
        lemma_digits_val_bounds(s.drop_last());
    }
}

} // verus!
