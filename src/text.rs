//! Character-level helpers: exact and ASCII case-insensitive comparison,
//! and decimal integer parsing as `str::parse` does it for `u32` and `i16`.
use vstd::prelude::*;

verus! {

/// Maps an ASCII upper-case letter to its lower-case form; every other
/// character is left as it is.
pub open spec fn ascii_lower(c: char) -> char {
    if 'A' <= c && c <= 'Z' {
        ((c as u32) + 32) as char
    } else {
        c
    }
}

/// The sequence with ASCII letters folded to lower case.
pub open spec fn fold_ascii(s: Seq<char>) -> Seq<char> {
    s.map_values(|c: char| ascii_lower(c))
}

pub open spec fn is_digit(c: char) -> bool {
    '0' <= c && c <= '9'
}

pub open spec fn digit_value(c: char) -> nat {
    ((c as u32) - ('0' as u32)) as nat
}

pub open spec fn all_digits(s: Seq<char>) -> bool {
    forall|i: int| 0 <= i < s.len() ==> is_digit(#[trigger] s[i])
}

/// The number that a run of decimal digits denotes.
pub open spec fn decimal_value(s: Seq<char>) -> nat
    decreases s.len(),
{
    if s.len() == 0 {
        0
    } else {
        decimal_value(s.drop_last()) * 10 + digit_value(s.last())
    }
}

/// A magnitude: one or more decimal digits, and nothing else.
pub open spec fn magnitude(s: Seq<char>) -> Option<nat> {
    if s.len() > 0 && all_digits(s) {
        Some(decimal_value(s))
    } else {
        None
    }
}

/// What `str::parse::<u32>` accepts: an optional `+`, then digits, with a
/// value that fits in 32 bits.
pub open spec fn parse_u32_spec(s: Seq<char>) -> Option<u32> {
    let digits = if s.len() > 0 && s[0] == '+' { s.skip(1) } else { s };
    match magnitude(digits) {
        Some(v) => if v <= u32::MAX { Some(v as u32) } else { None },
        None => None,
    }
}

/// What `str::parse::<i16>` accepts: an optional `+` or `-`, then digits,
/// with a value in the range of `i16`.
pub open spec fn parse_i16_spec(s: Seq<char>) -> Option<i16> {
    if s.len() > 0 && s[0] == '-' {
        match magnitude(s.skip(1)) {
            Some(v) => if v <= 32768 { Some((0 - v) as i16) } else { None },
            None => None,
        }
    } else {
        let digits = if s.len() > 0 && s[0] == '+' { s.skip(1) } else { s };
        match magnitude(digits) {
            Some(v) => if v <= 32767 { Some(v as i16) } else { None },
            None => None,
        }
    }
}

fn lower_char(c: char) -> (r: char)
    ensures
        r == ascii_lower(c),
{
    if 'A' <= c && c <= 'Z' {
        ((c as u8) + 32) as char
    } else {
        c
    }
}

/// Exact comparison of two strings, character by character.
pub fn str_eq(a: &str, b: &str) -> (r: bool)
    ensures
        r == (a@ == b@),
{
    let n = a.unicode_len();
    if n != b.unicode_len() {
        return false;
    }
    let mut i: usize = 0;
    while i < n
        invariant
            n == a@.len(),
            n == b@.len(),
            i <= n,
            a@.subrange(0, i as int) == b@.subrange(0, i as int),
        decreases n - i,
    {
        if a.get_char(i) != b.get_char(i) {
            assert(a@[i as int] != b@[i as int]);
            return false;
        }
        assert(a@.subrange(0, i + 1) =~= a@.subrange(0, i as int).push(a@[i as int]));
        assert(b@.subrange(0, i + 1) =~= b@.subrange(0, i as int).push(b@[i as int]));
        i = i + 1;
    }
    assert(a@ =~= a@.subrange(0, n as int));
    assert(b@ =~= b@.subrange(0, n as int));
    true
}

/// Comparison of two strings that treats ASCII letters of either case alike.
pub fn eq_ignore_ascii_case(a: &str, b: &str) -> (r: bool)
    ensures
        r == (fold_ascii(a@) == fold_ascii(b@)),
{
    let n = a.unicode_len();
    if n != b.unicode_len() {
        assert(fold_ascii(a@).len() != fold_ascii(b@).len());
        return false;
    }
    let mut i: usize = 0;
    while i < n
        invariant
            n == a@.len(),
            n == b@.len(),
            i <= n,
            forall|j: int| 0 <= j < i ==> ascii_lower(a@[j]) == ascii_lower(b@[j]),
        decreases n - i,
    {
        if lower_char(a.get_char(i)) != lower_char(b.get_char(i)) {
            assert(fold_ascii(a@)[i as int] != fold_ascii(b@)[i as int]);
            return false;
        }
        i = i + 1;
    }
    assert(fold_ascii(a@) =~= fold_ascii(b@));
    true
}

proof fn lemma_decimal_push(t: Seq<char>, c: char)
    ensures
        decimal_value(t.push(c)) == decimal_value(t) * 10 + digit_value(c),
{
    assert(t.push(c).drop_last() =~= t);
}

/// Reads the digits of `s` from character `start` on. `None` when that part
/// is empty or holds a non-digit; otherwise its value, capped at `cap`.
fn digits_capped(s: &str, start: usize, cap: u64) -> (r: Option<u64>)
    requires
        start <= s@.len(),
        cap <= u32::MAX as u64 + 1,
    ensures
        match magnitude(s@.skip(start as int)) {
            Some(v) => r == Some(if v < cap { v as u64 } else { cap }),
            None => r is None,
        },
{
    let n = s.unicode_len();
    if start == n {
        return None;
    }
    let ghost d = s@.skip(start as int);
    let mut acc: u64 = 0;
    let mut i: usize = start;
    while i < n
        invariant
            n == s@.len(),
            start <= i <= n,
            d == s@.skip(start as int),
            cap <= u32::MAX as u64 + 1,
            all_digits(d.subrange(0, i - start)),
            acc == if decimal_value(d.subrange(0, i - start)) < cap {
                decimal_value(d.subrange(0, i - start))
            } else {
                cap as nat
            },
        decreases n - i,
    {
        let c = s.get_char(i);
        if c < '0' || c > '9' {
            assert(d[i - start] == c);
            assert(!all_digits(d));
            return None;
        }
        let ghost before = d.subrange(0, i - start);
        proof {
            assert(d.subrange(0, i - start + 1) =~= before.push(c));
            lemma_decimal_push(before, c);
        }
        let next = acc * 10 + ((c as u32) - ('0' as u32)) as u64;
        acc = if next < cap { next } else { cap };
        i = i + 1;
    }
    assert(d.subrange(0, n - start) =~= d);
    Some(acc)
}

/// Parses an unsigned 32-bit decimal number as `str::parse::<u32>` does.
pub fn parse_u32(s: &str) -> (r: Option<u32>)
    ensures
        r == parse_u32_spec(s@),
{
    let n = s.unicode_len();
    let start: usize = if n > 0 && s.get_char(0) == '+' { 1 } else { 0 };
    assert(start == 0 ==> s@.skip(0) =~= s@);
    match digits_capped(s, start, u32::MAX as u64 + 1) {
        Some(v) => if v <= u32::MAX as u64 {
            Some(v as u32)
        } else {
            None
        },
        None => None,
    }
}

/// Parses a signed 16-bit decimal number as `str::parse::<i16>` does.
pub fn parse_i16(s: &str) -> (r: Option<i16>)
    ensures
        r == parse_i16_spec(s@),
{
    let n = s.unicode_len();
    if n > 0 && s.get_char(0) == '-' {
        match digits_capped(s, 1, 32769) {
            Some(v) => if v <= 32768 {
                Some((0 - (v as i32)) as i16)
            } else {
                None
            },
            None => None,
        }
    } else {
        let start: usize = if n > 0 && s.get_char(0) == '+' { 1 } else { 0 };
        assert(start == 0 ==> s@.skip(0) =~= s@);
        match digits_capped(s, start, 32768) {
            Some(v) => if v <= 32767 {
                Some(v as i16)
            } else {
                None
            },
            None => None,
        }
    }
}

} // verus!
