//! Verified text utilities for decoding sensor files: whitespace trimming,
//! decimal integer parsing, and case-insensitive substring search.
//!
//! Case folding is ASCII-only: the status and sensor files this library
//! decodes carry ASCII tokens, and the keywords searched for are ASCII.

use vstd::prelude::*;

verus! {

/// ASCII whitespace characters, the ones a sensor file can end with.
pub open spec fn is_space(c: char) -> bool {
    c == ' ' || c == '\t' || c == '\n' || c == '\r' || c == '\u{000B}' || c == '\u{000C}'
}

pub open spec fn trim_front(s: Seq<char>) -> Seq<char>
    decreases s.len(),
{
    if s.len() > 0 && is_space(s[0]) {
        trim_front(s.drop_first())
    } else {
        s
    }
}

pub open spec fn trim_back(s: Seq<char>) -> Seq<char>
    decreases s.len(),
{
    if s.len() > 0 && is_space(s.last()) {
        trim_back(s.drop_last())
    } else {
        s
    }
}

/// The sequence with leading and trailing whitespace removed.
pub open spec fn trimmed(s: Seq<char>) -> Seq<char> {
    trim_back(trim_front(s))
}

proof fn lemma_trim_front_subrange(s: Seq<char>, i: int)
    requires
        0 <= i <= s.len(),
        forall|k: int| 0 <= k < i ==> is_space(s[k]),
        i == s.len() || !is_space(s[i]),
    ensures
        trim_front(s) =~= s.subrange(i, s.len() as int),
    decreases i,
{
    if i == 0 {
        if s.len() > 0 && is_space(s[0]) {
            assert(false);
        }
        assert(trim_front(s) =~= s.subrange(0, s.len() as int));
    } else {
        assert(is_space(s[0]));
        let t = s.drop_first();
        assert(forall|k: int| 0 <= k < i - 1 ==> is_space(#[trigger] t[k]));
        lemma_trim_front_subrange(t, i - 1);
        assert(t.subrange(i - 1, t.len() as int) =~= s.subrange(i, s.len() as int));
    }
}

proof fn lemma_trim_back_subrange(s: Seq<char>, j: int)
    requires
        0 <= j <= s.len(),
        forall|k: int| j <= k < s.len() ==> is_space(s[k]),
        j == 0 || !is_space(s[j - 1]),
    ensures
        trim_back(s) =~= s.subrange(0, j),
    decreases s.len() - j,
{
    if j == s.len() {
        if s.len() > 0 && is_space(s.last()) {
            assert(false);
        }
        assert(trim_back(s) =~= s.subrange(0, j));
    } else {
        assert(is_space(s.last()));
        let t = s.drop_last();
        assert(forall|k: int| j <= k < t.len() ==> is_space(#[trigger] t[k]));
        lemma_trim_back_subrange(t, j);
        assert(t.subrange(0, j) =~= s.subrange(0, j));
    }
}

/// Whether a character is ASCII whitespace.
pub fn is_space_char(c: char) -> (r: bool)
    ensures
        r == is_space(c),
{
    c == ' ' || c == '\t' || c == '\n' || c == '\r' || c == '\u{000B}' || c == '\u{000C}'
}

/// Copy of the input with leading and trailing whitespace removed.
pub fn trim(s: &str) -> (t: String)
    ensures
        t@ == trimmed(s@),
{
    let n = s.unicode_len();
    let mut i: usize = 0;
    while i < n && is_space_char(s.get_char(i))
        invariant
            n == s@.len(),
            0 <= i <= n,
            forall|k: int| 0 <= k < i ==> is_space(s@[k]),
        decreases n - i,
    {
        i = i + 1;
    }
    let mut j: usize = n;
    while j > i && is_space_char(s.get_char(j - 1))
        invariant
            n == s@.len(),
            0 <= i <= j <= n,
            forall|k: int| j <= k < n ==> is_space(s@[k]),
        decreases j,
    {
        j = j - 1;
    }
    proof {
        lemma_trim_front_subrange(s@, i as int);
        let front = s@.subrange(i as int, s@.len() as int);
        assert(forall|k: int| j - i <= k < front.len() ==> is_space(#[trigger] front[k]));
        if j > i {
            assert(!is_space(s@[j - 1]));
            assert(front[j - i - 1] == s@[j - 1]);
        }
        lemma_trim_back_subrange(front, j - i);
        assert(front.subrange(0, j - i) =~= s@.subrange(i as int, j as int));
    }
    let piece = s.substring_char(i, j);
    piece.to_owned()
}

/// Bound under which every parsed magnitude of interest falls; a run of
/// digits worth more than this is out of range for every sensor field.
pub const DIGIT_CAP: u64 = 1_000_000_000_000;

pub open spec fn is_digit(c: char) -> bool {
    48 <= c as int && c as int <= 57
}

pub open spec fn digit_val(c: char) -> int {
    c as int - 48
}

pub open spec fn all_digits(s: Seq<char>) -> bool {
    forall|i: int| 0 <= i < s.len() ==> is_digit(s[i])
}

/// Value of a run of decimal digits, most significant first.
pub open spec fn digits_val(s: Seq<char>) -> int
    decreases s.len(),
{
    if s.len() == 0 {
        0
    } else {
        10 * digits_val(s.drop_last()) + digit_val(s.last())
    }
}

proof fn lemma_digits_val_nonneg(s: Seq<char>)
    requires
        all_digits(s),
    ensures
        digits_val(s) >= 0,
    decreases s.len(),
{
    if s.len() > 0 {
        assert(all_digits(s.drop_last()));
        lemma_digits_val_nonneg(s.drop_last());
    }
}

proof fn lemma_digits_val_take_succ(s: Seq<char>, i: int)
    requires
        0 <= i < s.len(),
    ensures
        digits_val(s.take(i + 1)) == 10 * digits_val(s.take(i)) + digit_val(s[i]),
{
    assert(s.take(i + 1).drop_last() =~= s.take(i));
    assert(s.take(i + 1).last() == s[i]);
}

/// Decimal value of the characters of `s` from position `from` on, if they
/// are one or more digits and nothing else; `None` when they are not, or when
/// their value exceeds `DIGIT_CAP`.
fn scan_digits(s: &str, from: usize) -> (r: Option<u64>)
    requires
        from as int <= s@.len(),
    ensures
        match r {
            Some(m) => {
                &&& s@.skip(from as int).len() > 0
                &&& all_digits(s@.skip(from as int))
                &&& m as int == digits_val(s@.skip(from as int))
                &&& m <= DIGIT_CAP
            },
            None => !(s@.skip(from as int).len() > 0 && all_digits(s@.skip(from as int)))
                || digits_val(s@.skip(from as int)) > DIGIT_CAP,
        },
{
    let n = s.unicode_len();
    if from == n {
        return None;
    }
    let mut i: usize = from;
    let mut acc: u64 = 0;
    let mut too_big = false;
    while i < n
        invariant
            n == s@.len(),
            from < n,
            from <= i <= n,
            all_digits(s@.subrange(from as int, i as int)),
            !too_big ==> acc as int == digits_val(s@.subrange(from as int, i as int))
                && acc <= DIGIT_CAP,
            too_big ==> digits_val(s@.subrange(from as int, i as int)) > DIGIT_CAP,
        decreases n - i,
    {
        let c = s.get_char(i);
        let u = c as u32;
        if u < 48 || u > 57 {
            proof {
                assert(s@.skip(from as int)[i - from] == s@[i as int]);
            }
            return None;
        }
        let d: u64 = (u - 48) as u64;
        proof {
            let suffix = s@.skip(from as int);
            assert(suffix.take(i - from) =~= s@.subrange(from as int, i as int));
            assert(suffix.take(i - from + 1) =~= s@.subrange(from as int, i as int + 1));
            assert(suffix[i - from] == s@[i as int]);
            lemma_digits_val_take_succ(suffix, i - from);
        }
        if !too_big {
            let next = acc * 10 + d;
            if next > DIGIT_CAP {
                too_big = true;
            } else {
                acc = next;
            }
        }
        i = i + 1;
    }
    proof {
        assert(s@.subrange(from as int, n as int) =~= s@.skip(from as int));
    }
    if too_big {
        None
    } else {
        Some(acc)
    }
}

/// The sequence with one leading sign character (`+` or `-`) removed.
pub open spec fn sign_stripped(s: Seq<char>) -> Seq<char> {
    if s.len() > 0 && (s[0] == '-' || s[0] == '+') {
        s.drop_first()
    } else {
        s
    }
}

pub open spec fn is_negative_literal(s: Seq<char>) -> bool {
    s.len() > 0 && s[0] == '-'
}

/// Whether `s` is a decimal integer literal: an optional sign followed by one
/// or more digits and nothing else.
pub open spec fn parses_as_int(s: Seq<char>) -> bool {
    sign_stripped(s).len() > 0 && all_digits(sign_stripped(s))
}

/// Mathematical value of a decimal integer literal.
pub open spec fn int_value(s: Seq<char>) -> int {
    if is_negative_literal(s) {
        -digits_val(sign_stripped(s))
    } else {
        digits_val(sign_stripped(s))
    }
}

/// The sequence with one leading `+` removed (an unsigned literal admits a
/// plus sign but no minus sign).
pub open spec fn plus_stripped(s: Seq<char>) -> Seq<char> {
    if s.len() > 0 && s[0] == '+' {
        s.drop_first()
    } else {
        s
    }
}

/// Whether `s` is an unsigned decimal literal: an optional `+` followed by
/// one or more digits and nothing else.
pub open spec fn parses_as_uint(s: Seq<char>) -> bool {
    plus_stripped(s).len() > 0 && all_digits(plus_stripped(s))
}

/// Mathematical value of an unsigned decimal literal.
pub open spec fn uint_value(s: Seq<char>) -> int {
    digits_val(plus_stripped(s))
}

/// Parse a signed 32-bit decimal integer, exactly as strict as the sensor
/// files demand: an optional sign, then digits only, value within `i32`
/// range; anything else is `None`.
pub fn parse_i32(s: &str) -> (r: Option<i32>)
    ensures
        match r {
            Some(v) => parses_as_int(s@) && i32::MIN <= int_value(s@) <= i32::MAX
                && v as int == int_value(s@),
            None => !parses_as_int(s@) || int_value(s@) < i32::MIN || int_value(s@) > i32::MAX,
        },
{
    let n = s.unicode_len();
    if n == 0 {
        return None;
    }
    let c0 = s.get_char(0);
    let negative = c0 == '-';
    let from: usize = if c0 == '-' || c0 == '+' {
        1
    } else {
        0
    };
    proof {
        assert(s@.skip(from as int) =~= sign_stripped(s@));
        if s@.skip(from as int).len() > 0 && all_digits(s@.skip(from as int)) {
            lemma_digits_val_nonneg(s@.skip(from as int));
        }
    }
    match scan_digits(s, from) {
        None => None,
        Some(m) => {
            if negative {
                if m <= 2147483648 {
                    Some((-(m as i64)) as i32)
                } else {
                    None
                }
            } else {
                if m <= 2147483647 {
                    Some(m as i32)
                } else {
                    None
                }
            }
        },
    }
}

/// Parse an unsigned decimal integer no greater than `max`: an optional `+`,
/// then digits only; anything else, or a value above `max`, is `None`.
pub fn parse_unsigned(s: &str, max: u64) -> (r: Option<u64>)
    requires
        max <= DIGIT_CAP,
    ensures
        match r {
            Some(v) => parses_as_uint(s@) && uint_value(s@) <= max as int
                && v as int == uint_value(s@),
            None => !parses_as_uint(s@) || uint_value(s@) > max as int,
        },
{
    let n = s.unicode_len();
    if n == 0 {
        return None;
    }
    let from: usize = if s.get_char(0) == '+' {
        1
    } else {
        0
    };
    proof {
        assert(s@.skip(from as int) =~= plus_stripped(s@));
        if s@.skip(from as int).len() > 0 && all_digits(s@.skip(from as int)) {
            lemma_digits_val_nonneg(s@.skip(from as int));
        }
    }
    match scan_digits(s, from) {
        None => None,
        Some(m) => {
            if m <= max {
                Some(m)
            } else {
                None
            }
        },
    }
}

/// ASCII case folding: an upper-case ASCII letter becomes lower case, every
/// other character is unchanged.
pub open spec fn fold_char(c: char) -> char {
    if 65 <= c as int && c as int <= 90 {
        (((c as u32) + 32) as u8) as char
    } else {
        c
    }
}

/// Whether the keyword occurs in the text at position `i`, comparing
/// characters up to ASCII case.
pub open spec fn matches_at(text: Seq<char>, kw: Seq<char>, i: int) -> bool {
    &&& 0 <= i
    &&& i + kw.len() <= text.len()
    &&& forall|j: int| 0 <= j < kw.len() ==> fold_char(text[i + j]) == fold_char(kw[j])
}

/// Whether the keyword occurs anywhere in the text, up to ASCII case.
pub open spec fn contains_ci(text: Seq<char>, kw: Seq<char>) -> bool {
    exists|i: int| matches_at(text, kw, i)
}

fn fold_char_exec(c: char) -> (r: char)
    ensures
        r == fold_char(c),
{
    let u = c as u32;
    if 65 <= u && u <= 90 {
        ((u + 32) as u8) as char
    } else {
        c
    }
}

/// Whether `kw` occurs as a substring of `text`, compared up to ASCII case.
pub fn contains_ci_str(text: &str, kw: &str) -> (r: bool)
    ensures
        r == contains_ci(text@, kw@),
{
    let n = text.unicode_len();
    let m = kw.unicode_len();
    if m > n {
        return false;
    }
    if m == 0 {
        assert(matches_at(text@, kw@, 0));
        return true;
    }
    let mut i: usize = 0;
    while i <= n - m
        invariant
            n == text@.len(),
            m == kw@.len(),
            m <= n,
            0 <= i <= n - m + 1,
            1 <= m,
            forall|p: int| 0 <= p < i ==> !matches_at(text@, kw@, p),
        decreases n + 1 - i,
    {
        let mut j: usize = 0;
        let mut hit = true;
        while j < m
            invariant
                n == text@.len(),
                m == kw@.len(),
                m <= n,
                0 <= i <= n - m,
                0 <= j <= m,
                hit ==> forall|q: int| 0 <= q < j
                    ==> fold_char(text@[i + q]) == fold_char(kw@[q]),
                !hit ==> !matches_at(text@, kw@, i as int),
            decreases m - j,
        {
            let tc = fold_char_exec(text.get_char(i + j));
            let kc = fold_char_exec(kw.get_char(j));
            if tc != kc {
                hit = false;
                j = m;
            } else {
                j = j + 1;
            }
        }
        if hit {
            assert(matches_at(text@, kw@, i as int));
            return true;
        }
        i = i + 1;
    }
    proof {
        assert forall|p: int| !matches_at(text@, kw@, p) by {
            if 0 <= p && p + kw@.len() <= text@.len() {
                assert(p < i);
            }
        }
    }
    false
}

} // verus!
