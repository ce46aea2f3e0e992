//! Verified parsing of the numeric text fields that upstream payloads carry.
//!
//! Several payload fields are numbers written as strings; this module gives
//! them exact parsers, plus the identifier split used when guessing
//! neighbouring catalog identifiers.

use vstd::prelude::*;

verus! {

/// True when the character is a decimal digit.
pub open spec fn spec_is_digit(c: char) -> bool {
    '0' <= c && c <= '9'
}

/// Numeric value of a decimal digit.
pub open spec fn spec_digit_val(c: char) -> int {
    c as int - '0' as int
}

/// True when every character of the string is a decimal digit.
pub open spec fn spec_all_digits(s: Seq<char>) -> bool {
    forall|i: int| 0 <= i < s.len() ==> spec_is_digit(#[trigger] s[i])
}

/// The integer written by a digit string, most significant digit first.
pub open spec fn spec_digits_value(s: Seq<char>) -> int
    decreases s.len(),
{
    if s.len() == 0 {
        0
    } else {
        spec_digits_value(s.drop_last()) * 10 + spec_digit_val(s.last())
    }
}

/// What parsing a string as an unsigned 64-bit number yields: the value of
/// a non-empty all-digit string when it fits, and nothing otherwise.
pub open spec fn spec_parse_u64(s: Seq<char>) -> Option<u64> {
    if s.len() > 0 && spec_all_digits(s) && spec_digits_value(s) <= u64::MAX {
        Some(spec_digits_value(s) as u64)
    } else {
        None
    }
}

/// What parsing a string as a signed 64-bit number yields: an optional
/// leading minus sign followed by digits, when the value fits.
pub open spec fn spec_parse_i64(s: Seq<char>) -> Option<i64> {
    if s.len() > 0 && s[0] == '-' {
        let digits = s.drop_first();
        if digits.len() > 0 && spec_all_digits(digits) && -spec_digits_value(digits) >= i64::MIN {
            Some((-spec_digits_value(digits)) as i64)
        } else {
            None
        }
    } else {
        if s.len() > 0 && spec_all_digits(s) && spec_digits_value(s) <= i64::MAX {
            Some(spec_digits_value(s) as i64)
        } else {
            None
        }
    }
}

/// What parsing a string as a signed 32-bit number yields.
pub open spec fn spec_parse_i32(s: Seq<char>) -> Option<i32> {
    match spec_parse_i64(s) {
        Some(v) => if i32::MIN <= v && v <= i32::MAX {
            Some(v as i32)
        } else {
            None
        },
        None => None,
    }
}

/// Extending a digit string never lowers its value.
proof fn lemma_digits_value_nonneg(s: Seq<char>)
    requires
        spec_all_digits(s),
    ensures
        spec_digits_value(s) >= 0,
    decreases s.len(),
{
    if s.len() > 0 {
        assert(spec_all_digits(s.drop_last()));
        lemma_digits_value_nonneg(s.drop_last());
    }
}

/// Once a digit prefix is worth more than a bound, every extension of it is
/// worth more too.
proof fn lemma_digits_value_monotone(s: Seq<char>, i: int)
    requires
        spec_all_digits(s),
        0 <= i <= s.len(),
    ensures
        spec_digits_value(s.subrange(0, i)) <= spec_digits_value(s),
    decreases s.len() - i,
{
    if i < s.len() {
        lemma_digits_value_monotone(s, i + 1);
        let p = s.subrange(0, i);
        let q = s.subrange(0, i + 1);
        assert(q.drop_last() =~= p);
        assert(spec_all_digits(p));
        lemma_digits_value_nonneg(p);
        assert(spec_digits_value(q) == spec_digits_value(p) * 10 + spec_digit_val(q.last()));
        assert(spec_digits_value(p) * 10 >= spec_digits_value(p)) by (nonlinear_arith)
            requires spec_digits_value(p) >= 0;
    } else {
        assert(s.subrange(0, i) =~= s);
    }
}

/// Parses a non-empty, all-digit string as a `u64`; anything else, and any
/// value over `u64::MAX`, is rejected.
pub fn parse_u64(s: &str) -> (r: Option<u64>)
    ensures
        r == spec_parse_u64(s@),
{
    let n: usize = s.unicode_len();
    if n == 0 {
        return None;
    }
    let mut acc: u64 = 0;
    let mut i: usize = 0;
    while i < n
        invariant
            n == s@.len(),
            0 < n <= usize::MAX,
            i <= n,
            spec_all_digits(s@.subrange(0, i as int)),
            acc == spec_digits_value(s@.subrange(0, i as int)),
        decreases n - i,
    {
        let c = s.get_char(i);
        proof {
            assert(s@.subrange(0, i + 1).drop_last() =~= s@.subrange(0, i as int));
            assert(s@.subrange(0, i + 1).last() == s@[i as int]);
        }
        if !('0' <= c && c <= '9') {
            return None;
        }
        let d: u64 = (c as u32 - '0' as u32) as u64;
        let shifted = match acc.checked_mul(10) {
            Some(v) => v,
            None => {
                proof {
                    let q = s@.subrange(0, i + 1);
                    assert(spec_digits_value(q) > u64::MAX) by (nonlinear_arith)
                        requires
                            spec_digits_value(q) == acc * 10 + spec_digit_val(q.last()),
                            acc * 10 > u64::MAX,
                            spec_digit_val(q.last()) >= 0;
                    if spec_all_digits(s@) {
                        lemma_digits_value_monotone(s@, i + 1);
                    }
                }
                return None;
            },
        };
        let next = match shifted.checked_add(d) {
            Some(v) => v,
            None => {
                proof {
                    if spec_all_digits(s@) {
                        lemma_digits_value_monotone(s@, i + 1);
                    }
                }
                return None;
            },
        };
        acc = next;
        i = i + 1;
    }
    proof {
        assert(s@.subrange(0, n as int) =~= s@);
    }
    Some(acc)
}

/// Parses an optionally minus-signed digit string as an `i64`.
pub fn parse_i64(s: &str) -> (r: Option<i64>)
    ensures
        r == spec_parse_i64(s@),
{
    let n: usize = s.unicode_len();
    if n == 0 {
        return None;
    }
    if s.get_char(0) == '-' {
        let digits = s.substring_char(1, n);
        proof {
            assert(digits@ =~= s@.drop_first());
        }
        match parse_u64(digits) {
            Some(m) => {
                proof {
                    lemma_digits_value_nonneg(s@.drop_first());
                }
                if m <= 9223372036854775807u64 {
                    Some(-(m as i64))
                } else if m == 9223372036854775808u64 {
                    Some(i64::MIN)
                } else {
                    None
                }
            },
            None => None,
        }
    } else {
        match parse_u64(s) {
            Some(m) => {
                proof {
                    lemma_digits_value_nonneg(s@);
                }
                if m <= i64::MAX as u64 {
                    Some(m as i64)
                } else {
                    None
                }
            },
            None => None,
        }
    }
}

/// Parses an optionally minus-signed digit string as an `i32`.
pub fn parse_i32(s: &str) -> (r: Option<i32>)
    ensures
        r == spec_parse_i32(s@),
{
    match parse_i64(s) {
        Some(v) => {
            if i32::MIN as i64 <= v && v <= i32::MAX as i64 {
                Some(v as i32)
            } else {
                None
            }
        },
        None => None,
    }
}

/// The letter for one base-26 digit.
pub open spec fn spec_letter(d: int) -> char {
    (('a' as u32) + (if 0 <= d < 26 {
        d
    } else {
        0
    }) as u32) as char
}

/// A number written in lowercase letters, bijectively: 0 is "a", 25 is
/// "z", 26 is "aa", and a negative number writes nothing.
pub open spec fn spec_letters(n: int) -> Seq<char>
    decreases n + 1,
{
    if n < 0 {
        Seq::empty()
    } else {
        spec_letters(n / 26 - 1).push(spec_letter(n % 26))
    }
}

/// Writes a number in lowercase letters, bijectively.
pub fn i32_to_letters(n: i32) -> (r: String)
    ensures
        r@ == spec_letters(n as int),
{
    let mut digits: Vec<char> = Vec::new();
    let mut m: i32 = n;
    while m >= 0
        invariant
            spec_letters(n as int) == spec_letters(m as int) + digits@.reverse(),
        decreases m + 1,
    {
        let d: u8 = (m % 26) as u8;
        let c: char = (97u8 + d) as char;
        let ghost prev = digits@;
        let ghost m0 = m as int;
        digits.push(c);
        proof {
            assert(digits@.drop_last() =~= prev);
            assert(digits@.reverse() =~= seq![c] + prev.reverse());
            assert(spec_letters(m0) == spec_letters(m0 / 26 - 1).push(c));
            assert(spec_letters(m0) + prev.reverse() =~= spec_letters(m0 / 26 - 1) + seq![c]
                + prev.reverse());
        }
        m = m / 26 - 1;
    }
    proof {
        assert(spec_letters(n as int) =~= digits@.reverse());
    }
    let mut out = String::new();
    let k = digits.len();
    let mut i: usize = 0;
    while i < k
        invariant
            k == digits@.len(),
            i <= k,
            spec_letters(n as int) == digits@.reverse(),
            digits@.reverse().len() == k,
            out@ == digits@.reverse().subrange(0, i as int),
        decreases k - i,
    {
        let c = digits[k - 1 - i];
        proof {
            assert(digits@.reverse()[i as int] == digits@[k - 1 - i]);
            assert(digits@.reverse().subrange(0, i + 1).drop_last() =~= digits@.reverse().subrange(
                0,
                i as int,
            ));
        }
        crate::utils::push_char(&mut out, c);
        i = i + 1;
    }
    proof {
        assert(digits@.reverse().subrange(0, k as int) =~= digits@.reverse());
    }
    out
}

/// Index of the first decimal digit of the string, if any.
pub open spec fn spec_first_digit_idx(s: Seq<char>) -> Option<int> {
    if exists|i: int| 0 <= i < s.len() && spec_is_digit(s[i]) {
        Some(choose|i: int|
            0 <= i < s.len() && spec_is_digit(s[i]) && forall|j: int|
                0 <= j < i ==> !spec_is_digit(#[trigger] s[j]))
    } else {
        None
    }
}

/// Index of the last decimal digit of the string, if any.
pub open spec fn spec_last_digit_idx(s: Seq<char>) -> Option<int> {
    if exists|i: int| 0 <= i < s.len() && spec_is_digit(s[i]) {
        Some(choose|i: int|
            0 <= i < s.len() && spec_is_digit(s[i]) && forall|j: int|
                i < j < s.len() ==> !spec_is_digit(#[trigger] s[j]))
    } else {
        None
    }
}

fn find_first_digit(s: &str) -> (r: Option<usize>)
    ensures
        match r {
            Some(i) => {
                &&& 0 <= i < s@.len()
                &&& spec_is_digit(s@[i as int])
                &&& forall|j: int| 0 <= j < i ==> !spec_is_digit(#[trigger] s@[j])
            },
            None => forall|j: int| 0 <= j < s@.len() ==> !spec_is_digit(#[trigger] s@[j]),
        },
{
    let n: usize = s.unicode_len();
    let mut i: usize = 0;
    while i < n
        invariant
            n == s@.len(),
            i <= n,
            forall|j: int| 0 <= j < i ==> !spec_is_digit(#[trigger] s@[j]),
        decreases n - i,
    {
        let c = s.get_char(i);
        if '0' <= c && c <= '9' {
            return Some(i);
        }
        i = i + 1;
    }
    None
}

fn find_last_digit(s: &str) -> (r: Option<usize>)
    ensures
        match r {
            Some(i) => {
                &&& 0 <= i < s@.len()
                &&& spec_is_digit(s@[i as int])
                &&& forall|j: int| i < j < s@.len() ==> !spec_is_digit(#[trigger] s@[j])
            },
            None => forall|j: int| 0 <= j < s@.len() ==> !spec_is_digit(#[trigger] s@[j]),
        },
{
    let n: usize = s.unicode_len();
    let mut i: usize = n;
    while i > 0
        invariant
            n == s@.len(),
            i <= n,
            forall|j: int| i <= j < s@.len() ==> !spec_is_digit(#[trigger] s@[j]),
        decreases i,
    {
        let c = s.get_char(i - 1);
        if '0' <= c && c <= '9' {
            return Some(i - 1);
        }
        i = i - 1;
    }
    None
}

/// Splits a catalog identifier into its textual prefix and the number that
/// follows, the span from its first digit to its last. The split is refused
/// when the identifier has no digit or the span does not read as a `u64`.
pub fn parse_app_id(app_id: &str) -> (r: Option<(String, u64)>)
    ensures
        match spec_first_digit_idx(app_id@) {
            None => r is None,
            Some(fd) => {
                let ld = spec_last_digit_idx(app_id@)->Some_0;
                match spec_parse_u64(app_id@.subrange(fd, ld + 1)) {
                    Some(v) => {
                        &&& r is Some
                        &&& r->Some_0.0@ == app_id@.subrange(0, fd)
                        &&& r->Some_0.1 == v
                    },
                    None => r is None,
                }
            },
        },
{
    let n: usize = app_id.unicode_len();
    let first = match find_first_digit(app_id) {
        Some(i) => i,
        None => {
            return None;
        },
    };
    let last = match find_last_digit(app_id) {
        Some(i) => i,
        None => {
            return None;
        },
    };
    proof {
        assert(spec_first_digit_idx(app_id@) == Some(first as int));
        assert(spec_last_digit_idx(app_id@) == Some(last as int));
        assert(first <= last);
        assert(last < n);
    }
    let prefix = app_id.substring_char(0, first);
    let numeric = app_id.substring_char(first, last + 1);
    match parse_u64(numeric) {
        Some(v) => Some((prefix.to_owned(), v)),
        None => None,
    }
}

} // verus!
