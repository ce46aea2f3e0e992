//! String sanitization and small text utilities.
//!
//! Upstream payloads occasionally carry embedded NUL bytes and stray control
//! characters; every string taken from a payload is passed through the
//! sanitizer before it is stored or compared.

use vstd::prelude::*;

verus! {

/// True when the character is a Unicode control code (category Cc).
pub open spec fn spec_is_control(c: char) -> bool {
    (c as u32) <= 0x1f || (0x7f <= (c as u32) && (c as u32) <= 0x9f)
}

/// Control characters other than newline, carriage return and tab are
/// upstream payload defects; the sanitizer masks them with a space.
pub open spec fn spec_is_disallowed_control(c: char) -> bool {
    spec_is_control(c) && c != '\n' && c != '\r' && c != '\t'
}

/// True when the string holds a NUL or a disallowed control character.
pub open spec fn spec_has_invalid_chars(s: Seq<char>) -> bool {
    exists|i: int| 0 <= i < s.len() && (s[i] == '\u{0}' || spec_is_disallowed_control(s[i]))
}

/// The sanitized form of a string: NUL characters removed, every other
/// disallowed control character replaced by a space.
pub open spec fn spec_sanitize(s: Seq<char>) -> Seq<char>
    decreases s.len(),
{
    if s.len() == 0 {
        Seq::empty()
    } else {
        let rest = spec_sanitize(s.drop_last());
        let c = s.last();
        if c == '\u{0}' {
            rest
        } else if spec_is_disallowed_control(c) {
            rest.push(' ')
        } else {
            rest.push(c)
        }
    }
}

/// A string with NUL characters removed and nothing else changed.
pub open spec fn spec_remove_nul(s: Seq<char>) -> Seq<char> {
    s.filter(|c: char| c != '\u{0}')
}

/// A string with NUL characters and disallowed control characters removed.
pub open spec fn spec_strip_invalid(s: Seq<char>) -> Seq<char> {
    s.filter(|c: char| c != '\u{0}' && !spec_is_disallowed_control(c))
}

/// Relies on str's equality: two string slices are equal exactly when
/// their characters are.
#[verifier::external_body]
pub(crate) fn str_eq(a: &str, b: &str) -> (r: bool)
    ensures
        r == (a@ == b@),
{
    a == b
}

/// Relies on String::push: appends exactly one character to the string.
#[verifier::external_body]
pub(crate) fn push_char(s: &mut String, c: char)
    ensures
        final(s)@ == old(s)@.push(c),
{
    s.push(c);
}

fn is_disallowed_control(c: char) -> (r: bool)
    ensures
        r == spec_is_disallowed_control(c),
{
    ((c as u32) <= 0x1f || (0x7f <= (c as u32) && (c as u32) <= 0x9f)) && c != '\n' && c != '\r'
        && c != '\t'
}

/// Reports whether a string still holds characters that the sanitizer
/// would remove or replace.
pub fn has_invalid_utf8_chars(s: &str) -> (r: bool)
    ensures
        r == spec_has_invalid_chars(s@),
{
    let n: usize = s.unicode_len();
    let mut i: usize = 0;
    while i < n
        invariant
            n == s@.len(),
            i <= n,
            forall|j: int| 0 <= j < i ==> !(s@[j] == '\u{0}' || spec_is_disallowed_control(s@[j])),
        decreases n - i,
    {
        let c = s.get_char(i);
        if c == '\u{0}' || is_disallowed_control(c) {
            return true;
        }
        i = i + 1;
    }
    false
}

/// Cleans a string for storage: NULs are dropped and every other disallowed
/// control character becomes a space. Ordinary text passes through unchanged.
pub fn sanitize_utf8_string(s: &str) -> (r: String)
    ensures
        r@ == spec_sanitize(s@),
{
    let n: usize = s.unicode_len();
    let mut out = String::new();
    let mut i: usize = 0;
    while i < n
        invariant
            n == s@.len(),
            i <= n,
            out@ == spec_sanitize(s@.subrange(0, i as int)),
        decreases n - i,
    {
        let c = s.get_char(i);
        proof {
            assert(s@.subrange(0, i + 1).drop_last() =~= s@.subrange(0, i as int));
            assert(s@.subrange(0, i + 1).last() == s@[i as int]);
        }
        if c == '\u{0}' {
            // dropped
        } else if is_disallowed_control(c) {
            push_char(&mut out, ' ');
        } else {
            push_char(&mut out, c);
        }
        i = i + 1;
    }
    proof {
        assert(s@.subrange(0, n as int) =~= s@);
    }
    out
}

/// Removes every NUL character; all other characters stay as they are.
pub fn remove_null_bytes(s: &str) -> (r: String)
    ensures
        r@ == spec_remove_nul(s@),
{
    let n: usize = s.unicode_len();
    let mut out = String::new();
    let mut i: usize = 0;
    while i < n
        invariant
            n == s@.len(),
            i <= n,
            out@ == spec_remove_nul(s@.subrange(0, i as int)),
        decreases n - i,
    {
        let c = s.get_char(i);
        proof {
            assert(s@.subrange(0, i + 1).drop_last() =~= s@.subrange(0, i as int));
            assert(s@.subrange(0, i + 1).last() == s@[i as int]);
            reveal_with_fuel(Seq::filter, 2);
        }
        if c != '\u{0}' {
            push_char(&mut out, c);
        }
        i = i + 1;
    }
    proof {
        assert(s@.subrange(0, n as int) =~= s@);
    }
    out
}

/// Removes NUL characters and disallowed control characters alike, keeping
/// only text that is safe for every downstream consumer.
pub fn ensure_valid_utf8(s: &str) -> (r: String)
    ensures
        r@ == spec_strip_invalid(s@),
{
    let n: usize = s.unicode_len();
    let mut out = String::new();
    let mut i: usize = 0;
    while i < n
        invariant
            n == s@.len(),
            i <= n,
            out@ == spec_strip_invalid(s@.subrange(0, i as int)),
        decreases n - i,
    {
        let c = s.get_char(i);
        proof {
            assert(s@.subrange(0, i + 1).drop_last() =~= s@.subrange(0, i as int));
            assert(s@.subrange(0, i + 1).last() == s@[i as int]);
            reveal_with_fuel(Seq::filter, 2);
        }
        if c != '\u{0}' && !is_disallowed_control(c) {
            push_char(&mut out, c);
        }
        i = i + 1;
    }
    proof {
        assert(s@.subrange(0, n as int) =~= s@);
    }
    out
}

/// Lexicographic order on character sequences, by code point.
pub open spec fn spec_str_lt(a: Seq<char>, b: Seq<char>) -> bool
    decreases a.len(),
{
    if b.len() == 0 {
        false
    } else if a.len() == 0 {
        true
    } else if a.first() != b.first() {
        (a.first() as u32) < (b.first() as u32)
    } else {
        spec_str_lt(a.drop_first(), b.drop_first())
    }
}

/// Once two strings agree on a prefix, their order is the order of what
/// follows it.
pub proof fn lemma_str_lt_skip(a: Seq<char>, b: Seq<char>, i: int)
    requires
        0 <= i <= a.len(),
        i <= b.len(),
        forall|j: int| 0 <= j < i ==> a[j] == b[j],
    ensures
        spec_str_lt(a, b) == spec_str_lt(a.skip(i), b.skip(i)),
    decreases i,
{
    if i > 0 {
        assert(a.skip(0) =~= a);
        assert(b.skip(0) =~= b);
        lemma_str_lt_skip(a, b, i - 1);
        let sa = a.skip(i - 1);
        let sb = b.skip(i - 1);
        assert(sa.first() == a[i - 1]);
        assert(sb.first() == b[i - 1]);
        assert(sa.drop_first() =~= a.skip(i));
        assert(sb.drop_first() =~= b.skip(i));
    } else {
        assert(a.skip(0) =~= a);
        assert(b.skip(0) =~= b);
    }
}

/// The string order is irreflexive on equal strings and total: of two
/// distinct strings exactly one comes first.
pub proof fn lemma_str_lt_connected(a: Seq<char>, b: Seq<char>)
    ensures
        a == b ==> !spec_str_lt(a, b),
        !spec_str_lt(a, b) && !spec_str_lt(b, a) ==> a == b,
    decreases a.len(),
{
    if a.len() > 0 && b.len() > 0 && a.first() == b.first() {
        lemma_str_lt_connected(a.drop_first(), b.drop_first());
        if !spec_str_lt(a, b) && !spec_str_lt(b, a) {
            assert(a.drop_first() == b.drop_first());
            assert forall|j: int| 0 <= j < a.len() implies a[j] == b[j] by {
                if j > 0 {
                    assert(a.drop_first()[j - 1] == b.drop_first()[j - 1]);
                }
            }
            assert(a =~= b);
        }
        if a == b {
            assert(a.drop_first() =~= b.drop_first());
        }
    } else {
        if !spec_str_lt(a, b) && !spec_str_lt(b, a) {
            if a.len() > 0 && b.len() > 0 {
                assert((a.first() as u32) == (b.first() as u32));
                vstd::utf8::char_u32_cast(a.first(), a.first() as u32);
                vstd::utf8::char_u32_cast(b.first(), b.first() as u32);
                assert(a.first() == b.first());
            } else {
                assert(a.len() == 0 && b.len() == 0);
                assert(a =~= b);
            }
        }
        if a == b && a.len() > 0 {
            assert(a.first() == b.first());
        }
    }
}

/// The string order is transitive.
pub proof fn lemma_str_lt_trans(a: Seq<char>, b: Seq<char>, c: Seq<char>)
    requires
        spec_str_lt(a, b),
        spec_str_lt(b, c),
    ensures
        spec_str_lt(a, c),
    decreases a.len() + b.len() + c.len(),
{
    if a.len() > 0 && b.len() > 0 && c.len() > 0 && a.first() == b.first() && b.first()
        == c.first() {
        lemma_str_lt_trans(a.drop_first(), b.drop_first(), c.drop_first());
    }
}

/// Compares two strings in the lexicographic code-point order.
pub fn str_lt(a: &str, b: &str) -> (r: bool)
    ensures
        r == spec_str_lt(a@, b@),
{
    let na: usize = a.unicode_len();
    let nb: usize = b.unicode_len();
    let mut i: usize = 0;
    while i < na && i < nb
        invariant
            na == a@.len(),
            nb == b@.len(),
            i <= na,
            i <= nb,
            forall|j: int| 0 <= j < i ==> a@[j] == b@[j],
        decreases na - i,
    {
        let ca = a.get_char(i);
        let cb = b.get_char(i);
        if ca != cb {
            proof {
                lemma_str_lt_skip(a@, b@, i as int);
                assert(a@.skip(i as int).first() == a@[i as int]);
                assert(b@.skip(i as int).first() == b@[i as int]);
            }
            return (ca as u32) < (cb as u32);
        }
        i = i + 1;
    }
    proof {
        lemma_str_lt_skip(a@, b@, i as int);
        if i < na {
            assert(a@.skip(i as int).len() > 0);
            assert(b@.skip(i as int).len() == 0);
        } else {
            assert(a@.skip(i as int).len() == 0);
        }
    }
    na < nb
}


/// The text of an optional string.
pub open spec fn opt_str_view(o: Option<String>) -> Option<Seq<char>> {
    match o {
        Some(s) => Some(s@),
        None => None,
    }
}

/// The texts of a sequence of strings.
pub open spec fn strs(v: Seq<String>) -> Seq<Seq<char>>
    decreases v,
{
    if v.len() == 0 {
        Seq::empty()
    } else {
        strs(v.drop_last()).push(v.last()@)
    }
}

pub proof fn lemma_strs(v: Seq<String>)
    ensures
        strs(v).len() == v.len(),
        forall|i: int| 0 <= i < v.len() ==> #[trigger] strs(v)[i] == v[i]@,
    decreases v.len(),
{
    if v.len() > 0 {
        lemma_strs(v.drop_last());
    }
}

/// Compares two string lists by their texts.
pub fn strs_eq(a: &Vec<String>, b: &Vec<String>) -> (r: bool)
    ensures
        r == (strs(a@) == strs(b@)),
{
    proof {
        lemma_strs(a@);
        lemma_strs(b@);
    }
    if a.len() != b.len() {
        return false;
    }
    let n = a.len();
    let mut i: usize = 0;
    while i < n
        invariant
            n == a@.len() == b@.len(),
            i <= n,
            strs(a@).len() == n,
            strs(b@).len() == n,
            forall|k: int| 0 <= k < n ==> #[trigger] strs(a@)[k] == a@[k]@,
            forall|k: int| 0 <= k < n ==> #[trigger] strs(b@)[k] == b@[k]@,
            forall|k: int| 0 <= k < i ==> #[trigger] strs(a@)[k] == strs(b@)[k],
        decreases n - i,
    {
        if !str_eq(a[i].as_str(), b[i].as_str()) {
            proof {
                assert(strs(a@)[i as int] != strs(b@)[i as int]);
            }
            return false;
        }
        i = i + 1;
    }
    proof {
        assert(strs(a@) =~= strs(b@));
    }
    true
}

/// Copies a list of strings.
pub fn strs_copy(v: &Vec<String>) -> (r: Vec<String>)
    ensures
        strs(r@) == strs(v@),
{
    proof {
        lemma_strs(v@);
    }
    let n = v.len();
    let mut out: Vec<String> = Vec::new();
    let mut i: usize = 0;
    while i < n
        invariant
            n == v@.len(),
            i <= n,
            out@.len() == i,
            forall|k: int| 0 <= k < n ==> #[trigger] strs(v@)[k] == v@[k]@,
            strs(v@).len() == n,
            forall|k: int| 0 <= k < i ==> #[trigger] out@[k]@ == strs(v@)[k],
        decreases n - i,
    {
        out.push(v[i].clone());
        i = i + 1;
    }
    proof {
        lemma_strs(out@);
        assert(strs(out@) =~= strs(v@));
    }
    out
}

/// True when the string starts with the given prefix.
pub open spec fn spec_starts_with(s: Seq<char>, prefix: Seq<char>) -> bool {
    s.len() >= prefix.len() && s.subrange(0, prefix.len() as int) == prefix
}

/// Reports whether the string starts with the given prefix.
pub fn starts_with(s: &str, prefix: &str) -> (r: bool)
    ensures
        r == spec_starts_with(s@, prefix@),
{
    let n: usize = s.unicode_len();
    let m: usize = prefix.unicode_len();
    if n < m {
        proof {
            assert(!spec_starts_with(s@, prefix@));
        }
        return false;
    }
    let mut i: usize = 0;
    while i < m
        invariant
            n == s@.len(),
            m == prefix@.len(),
            m <= n,
            i <= m,
            forall|j: int| 0 <= j < i ==> s@[j] == prefix@[j],
        decreases m - i,
    {
        if s.get_char(i) != prefix.get_char(i) {
            proof {
                assert(s@.subrange(0, m as int)[i as int] != prefix@[i as int]);
            }
            return false;
        }
        i = i + 1;
    }
    proof {
        assert(s@.subrange(0, m as int) =~= prefix@);
    }
    true
}

/// The decimal digits of a non-negative number, most significant first.
pub open spec fn spec_u64_digits(n: int) -> Seq<char>
    decreases n,
{
    if n < 10 {
        seq![(('0' as u32) + (if 0 <= n < 10 { n } else { 0 }) as u32) as char]
    } else {
        spec_u64_digits(n / 10).push((('0' as u32) + (n % 10) as u32) as char)
    }
}

/// Writes a number in decimal.
pub fn u64_to_string(n: u64) -> (r: String)
    ensures
        r@ == spec_u64_digits(n as int),
{
    let mut digits: Vec<char> = Vec::new();
    let mut m: u64 = n;
    loop
        invariant_except_break
            spec_u64_digits(n as int) == spec_u64_digits(m as int) + digits@.reverse(),
        ensures
            spec_u64_digits(n as int) == digits@.reverse(),
        decreases m,
    {
        let d: u8 = (m % 10) as u8;
        let c: char = (48u8 + d) as char;
        let ghost prev = digits@;
        let ghost m0 = m as int;
        digits.push(c);
        proof {
            assert(digits@.drop_last() =~= prev);
            assert(digits@.reverse() =~= seq![c] + prev.reverse());
            if m0 >= 10 {
                assert(spec_u64_digits(m0) == spec_u64_digits(m0 / 10).push(c));
                assert(spec_u64_digits(m0 / 10) + digits@.reverse() =~= spec_u64_digits(m0 / 10)
                    + seq![c] + prev.reverse());
                assert(spec_u64_digits(m0).drop_last() == spec_u64_digits(m0 / 10));
                assert(spec_u64_digits(m0) + prev.reverse() =~= spec_u64_digits(m0 / 10) + seq![c]
                    + prev.reverse());
            } else {
                assert(spec_u64_digits(m0) =~= seq![c]);
                assert(spec_u64_digits(m0) + prev.reverse() =~= seq![c] + prev.reverse());
            }
        }
        if m < 10 {
            break;
        }
        m = m / 10;
    }
    let mut out = String::new();
    let k = digits.len();
    let mut i: usize = 0;
    proof {
        assert(spec_u64_digits(n as int) =~= digits@.reverse());
    }
    while i < k
        invariant
            k == digits@.len(),
            i <= k,
            spec_u64_digits(n as int) == digits@.reverse(),
            digits@.reverse().len() == k,
            out@ == digits@.reverse().subrange(0, i as int),
        decreases k - i,
    {
        let c = digits[k - 1 - i];
        proof {
            assert(digits@.reverse()[i as int] == digits@[k - 1 - i]);
            assert(digits@.reverse().subrange(0, i + 1).drop_last() =~= digits@.reverse().subrange(
                0,
                i as int,
            ));
        }
        push_char(&mut out, c);
        i = i + 1;
    }
    proof {
        assert(digits@.reverse().subrange(0, k as int) =~= digits@.reverse());
    }
    out
}

/// The sanitizer's output never holds a NUL or a disallowed control
/// character.
pub proof fn lemma_sanitize_output_clean(s: Seq<char>)
    ensures
        !spec_has_invalid_chars(spec_sanitize(s)),
    decreases s.len(),
{
    if s.len() == 0 {
    } else {
        lemma_sanitize_output_clean(s.drop_last());
        let rest = spec_sanitize(s.drop_last());
        let out = spec_sanitize(s);
        assert forall|i: int| 0 <= i < out.len() implies !(out[i] == '\u{0}'
            || spec_is_disallowed_control(out[i])) by {
            if i < rest.len() {
                assert(!(rest[i] == '\u{0}' || spec_is_disallowed_control(rest[i])));
            }
        }
    }
}

/// On a string without invalid characters the sanitizer is the identity.
pub proof fn lemma_sanitize_clean_identity(s: Seq<char>)
    requires
        !spec_has_invalid_chars(s),
    ensures
        spec_sanitize(s) == s,
    decreases s.len(),
{
    if s.len() == 0 {
        assert(spec_sanitize(s) =~= s);
    } else {
        assert(!spec_has_invalid_chars(s.drop_last()));
        lemma_sanitize_clean_identity(s.drop_last());
        assert(!(s.last() == '\u{0}' || spec_is_disallowed_control(s.last())));
        assert(spec_sanitize(s) =~= s);
    }
}

} // verus!
