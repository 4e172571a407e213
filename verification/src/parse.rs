//! Reading a submitted answer: trimming surrounding whitespace and parsing
//! an optionally signed decimal integer, with overflow rejected.
//!
//! `parse_input` is the specification: the characters left after trimming
//! must be an optional sign followed by one or more decimal digits whose
//! value fits in `i32`; anything else parses to `None`.

use vstd::prelude::*;
use vstd::string::StrSliceExecFns;

verus! {

/// Whitespace that is trimmed from either end of the input.
pub open spec fn is_space_char(c: char) -> bool {
    c == ' ' || c == '\t' || c == '\n' || c == '\r' || c == '\u{c}'
}

/// Index of the first non-space character at or after `i`, or the length
/// when there is none.
pub open spec fn start_of_trim(s: Seq<char>, i: int) -> int
    decreases s.len() - i,
{
    if i < 0 || i >= s.len() {
        s.len() as int
    } else if is_space_char(s[i]) {
        start_of_trim(s, i + 1)
    } else {
        i
    }
}

/// One past the last non-space character strictly before `j`, or 0 when
/// there is none.
pub open spec fn end_of_trim(s: Seq<char>, j: int) -> int
    decreases j,
{
    if j <= 0 || j > s.len() {
        0
    } else if is_space_char(s[j - 1]) {
        end_of_trim(s, j - 1)
    } else {
        j
    }
}

/// `s` with leading and trailing whitespace removed.
pub open spec fn trim_spec(s: Seq<char>) -> Seq<char> {
    let i = start_of_trim(s, 0);
    let j = end_of_trim(s, s.len() as int);
    if i <= j {
        s.subrange(i, j)
    } else {
        Seq::empty()
    }
}

/// The value of a decimal digit character, or -1 for any other character.
pub open spec fn digit_val(c: char) -> int {
    if c == '0' {
        0
    } else if c == '1' {
        1
    } else if c == '2' {
        2
    } else if c == '3' {
        3
    } else if c == '4' {
        4
    } else if c == '5' {
        5
    } else if c == '6' {
        6
    } else if c == '7' {
        7
    } else if c == '8' {
        8
    } else if c == '9' {
        9
    } else {
        -1
    }
}

pub open spec fn is_digit_char(c: char) -> bool {
    digit_val(c) >= 0
}

pub open spec fn all_digits(s: Seq<char>) -> bool {
    forall|k: int| 0 <= k < s.len() ==> is_digit_char(#[trigger] s[k])
}

/// The value of a digit string, most significant digit first.
pub open spec fn digits_val(s: Seq<char>) -> int
    decreases s.len(),
{
    if s.len() == 0 {
        0
    } else {
        digits_val(s.drop_last()) * 10 + digit_val(s.last())
    }
}

/// A non-empty, all-digit string, negated when `neg` holds.
pub open spec fn parse_digits_spec(digits: Seq<char>, neg: bool) -> Option<int> {
    if digits.len() > 0 && all_digits(digits) {
        if neg {
            Some(-digits_val(digits))
        } else {
            Some(digits_val(digits))
        }
    } else {
        None
    }
}

/// An optional sign followed by one or more digits; unbounded value.
pub open spec fn parse_int_spec(s: Seq<char>) -> Option<int> {
    if s.len() > 0 && s[0] == '-' {
        parse_digits_spec(s.skip(1), true)
    } else if s.len() > 0 && s[0] == '+' {
        parse_digits_spec(s.skip(1), false)
    } else {
        parse_digits_spec(s, false)
    }
}

/// As `parse_int_spec`, but values outside `i32` are rejected.
pub open spec fn parse_i32_spec(s: Seq<char>) -> Option<int> {
    match parse_int_spec(s) {
        Some(v) => if i32::MIN <= v <= i32::MAX {
            Some(v)
        } else {
            None
        },
        None => None,
    }
}

/// What a raw submission means: trim it, then parse a signed `i32`.
pub open spec fn parse_input(s: Seq<char>) -> Option<int> {
    parse_i32_spec(trim_spec(s))
}

/// When every character before `j` is a space, trimming from the right
/// consumes them all.
pub proof fn lemma_end_all_spaces(s: Seq<char>, j: int)
    requires
        0 <= j <= s.len(),
        forall|k: int| 0 <= k < j ==> is_space_char(#[trigger] s[k]),
    ensures
        end_of_trim(s, j) == 0,
    decreases j,
{
    if j > 0 {
        lemma_end_all_spaces(s, j - 1);
    }
}

pub proof fn lemma_digits_val_nonneg(s: Seq<char>)
    requires
        all_digits(s),
    ensures
        digits_val(s) >= 0,
    decreases s.len(),
{
    if s.len() > 0 {
        assert(all_digits(s.drop_last()));
        lemma_digits_val_nonneg(s.drop_last());
    }
}

/// Appending further digits never shrinks the value of a digit string.
pub proof fn lemma_digits_val_prefix(s: Seq<char>, m: int)
    requires
        all_digits(s),
        0 <= m <= s.len(),
    ensures
        digits_val(s.take(m)) <= digits_val(s),
    decreases s.len() - m,
{
    if m < s.len() {
        lemma_digits_val_prefix(s, m + 1);
        assert(s.take(m + 1).drop_last() =~= s.take(m));
        assert(s.take(m + 1).last() == s[m]);
        assert(all_digits(s.take(m)));
        lemma_digits_val_nonneg(s.take(m));
    } else {
        assert(s.take(m) =~= s);
    }
}

fn is_space_exec(c: char) -> (r: bool)
    ensures
        r == is_space_char(c),
{
    c == ' ' || c == '\t' || c == '\n' || c == '\r' || c == '\u{c}'
}

/// The value of a digit character, or 10 for any other character.
fn digit_of(c: char) -> (r: u32)
    ensures
        is_digit_char(c) ==> r < 10 && r as int == digit_val(c),
        !is_digit_char(c) ==> r == 10,
{
    if c == '0' {
        0
    } else if c == '1' {
        1
    } else if c == '2' {
        2
    } else if c == '3' {
        3
    } else if c == '4' {
        4
    } else if c == '5' {
        5
    } else if c == '6' {
        6
    } else if c == '7' {
        7
    } else if c == '8' {
        8
    } else if c == '9' {
        9
    } else {
        10
    }
}

/// Trims `s` and parses it as a signed decimal `i32`, returning exactly
/// what `parse_input` assigns to the characters of `s`.
pub fn parse_trimmed_i32(s: &str) -> (r: Option<i32>)
    ensures
        match r {
            Some(v) => parse_input(s@) == Some(v as int),
            None => parse_input(s@) is None,
        },
{
    let n = s.unicode_len();
    let mut i: usize = 0;
    while i < n && is_space_exec(s.get_char(i))
        invariant
            n == s@.len(),
            i <= n,
            start_of_trim(s@, 0) == start_of_trim(s@, i as int),
            forall|k: int| 0 <= k < i ==> is_space_char(#[trigger] s@[k]),
        decreases n - i,
    {
        i += 1;
    }
    assert(start_of_trim(s@, 0) == i as int);
    let mut j: usize = n;
    while j > i && is_space_exec(s.get_char(j - 1))
        invariant
            n == s@.len(),
            i <= j <= n,
            end_of_trim(s@, n as int) == end_of_trim(s@, j as int),
        decreases j,
    {
        j -= 1;
    }
    if i == j {
        proof {
            if i > 0 {
                lemma_end_all_spaces(s@, i as int);
            }
            assert(trim_spec(s@).len() == 0);
        }
        return None;
    }
    assert(end_of_trim(s@, n as int) == j as int);
    let ghost trimmed = s@.subrange(i as int, j as int);
    assert(trim_spec(s@) =~= trimmed);
    let mut d0: usize = i;
    let mut neg = false;
    let c0 = s.get_char(i);
    if c0 == '-' {
        neg = true;
        d0 = i + 1;
    } else if c0 == '+' {
        d0 = i + 1;
    }
    let ghost digits = s@.subrange(d0 as int, j as int);
    proof {
        assert(trimmed[0] == s@[i as int]);
        if d0 > i {
            assert(digits =~= trimmed.skip(1));
        } else {
            assert(digits =~= trimmed);
        }
        assert(parse_int_spec(trimmed) == parse_digits_spec(digits, neg));
    }
    if d0 == j {
        assert(digits.len() == 0);
        return None;
    }
    let mut k: usize = d0;
    let mut mag: u64 = 0;
    while k < j
        invariant
            n == s@.len(),
            d0 <= k <= j <= n,
            d0 < j,
            digits == s@.subrange(d0 as int, j as int),
            parse_int_spec(trimmed) == parse_digits_spec(digits, neg),
            trim_spec(s@) == trimmed,
            all_digits(s@.subrange(d0 as int, k as int)),
            mag as int == digits_val(s@.subrange(d0 as int, k as int)),
            mag <= 2147483648,
        decreases j - k,
    {
        let c = s.get_char(k);
        let d = digit_of(c);
        if d >= 10 {
            proof {
                assert(digits[k - d0] == s@[k as int]);
                assert(!all_digits(digits));
            }
            return None;
        }
        let new_mag: u64 = mag * 10 + d as u64;
        proof {
            let pre = s@.subrange(d0 as int, k as int);
            let post = s@.subrange(d0 as int, k + 1 as int);
            assert(post.drop_last() =~= pre);
            assert(post.last() == s@[k as int]);
            assert(new_mag as int == digits_val(post));
        }
        if new_mag > 2147483648 {
            proof {
                if all_digits(digits) {
                    let m = k + 1 - d0 as int;
                    assert(digits.take(m) =~= s@.subrange(d0 as int, k + 1 as int));
                    lemma_digits_val_prefix(digits, m);
                    assert(digits_val(digits) > 2147483648);
                }
            }
            return None;
        }
        mag = new_mag;
        k += 1;
    }
    assert(digits =~= s@.subrange(d0 as int, j as int));
    assert(all_digits(digits));
    assert(mag as int == digits_val(digits));
    if neg {
        let v: i32 = if mag == 2147483648 {
            i32::MIN
        } else {
            -(mag as i32)
        };
        assert(v as int == -digits_val(digits));
        Some(v)
    } else {
        if mag > 2147483647 {
            assert(digits_val(digits) > i32::MAX);
            return None;
        }
        Some(mag as i32)
    }
}

} // verus!
