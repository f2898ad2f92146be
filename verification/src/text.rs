//! Verified helpers for plain text: comparison, digit parsing and
//! decimal formatting, all stated over `Seq<char>` views.

use vstd::prelude::*;

verus! {

/// Relies on `String::push`, which appends exactly the given character to
/// the end of the string; vstd does not specify it.
pub assume_specification[ String::push ](s: &mut String, c: char)
    ensures
        final(s)@ == old(s)@.push(c),
;

/// Character-by-character string equality, stated over the views.
pub fn str_eq(a: &str, b: &str) -> (r: bool)
    ensures
        r == (a@ == b@),
{
    let na = a.unicode_len();
    let nb = b.unicode_len();
    if na != nb {
        proof {
            assert(a@ != b@) by {
                assert(a@.len() != b@.len());
            }
        }
        return false;
    }
    let mut i: usize = 0;
    while i < na
        invariant
            na == a@.len(),
            na == b@.len(),
            i <= na,
            forall|k: int| 0 <= k < i ==> a@[k] == b@[k],
        decreases na - i,
    {
        if a.get_char(i) != b.get_char(i) {
            return false;
        }
        i = i + 1;
    }
    proof {
        assert(a@ =~= b@);
    }
    true
}

/// The lower-case form of an ASCII letter; other characters are unchanged.
pub open spec fn lower_char(c: char) -> char {
    if 'A' <= c <= 'Z' {
        ((c as u8) + 32) as char
    } else {
        c
    }
}

/// `s` with ASCII letters lowered and every underscore removed.
pub open spec fn simplified_key(s: Seq<char>) -> Seq<char>
    decreases s.len(),
{
    if s.len() == 0 {
        Seq::<char>::empty()
    } else if s.last() == '_' {
        simplified_key(s.drop_last())
    } else {
        simplified_key(s.drop_last()).push(lower_char(s.last()))
    }
}

/// Lower-cases ASCII letters and strips underscores, as used to normalise
/// lookup keys.
pub fn simplify_key(s: &str) -> (r: String)
    ensures
        r@ == simplified_key(s@),
{
    let n = s.unicode_len();
    let mut acc = String::new();
    let mut i: usize = 0;
    while i < n
        invariant
            n == s@.len(),
            i <= n,
            acc@ == simplified_key(s@.subrange(0, i as int)),
        decreases n - i,
    {
        let c = s.get_char(i);
        proof {
            assert(s@.subrange(0, i + 1).drop_last() =~= s@.subrange(0, i as int));
            assert(s@.subrange(0, i + 1).last() == s@[i as int]);
        }
        if c == '_' {
            // dropped
        } else if 'A' <= c && c <= 'Z' {
            let lowered = ((c as u8) + 32) as char;
            acc.push(lowered);
        } else {
            acc.push(c);
        }
        i = i + 1;
    }
    proof {
        assert(s@.subrange(0, n as int) =~= s@);
    }
    acc
}

/// The numeric value of a run of decimal digits, most significant first.
pub open spec fn dec_value(s: Seq<char>) -> nat
    decreases s.len(),
{
    if s.len() == 0 {
        0
    } else {
        dec_value(s.drop_last()) * 10 + (s.last() as int - '0' as int) as nat
    }
}

/// Every character is an ASCII decimal digit.
pub open spec fn digits_only(s: Seq<char>) -> bool {
    forall|i: int| 0 <= i < s.len() ==> ('0' <= #[trigger] s[i] <= '9')
}

/// Parses a run of decimal digits as a `u64`, refusing empty or non-digit
/// input and values above the cap.
pub fn parse_digits_u64(s: &str, cap: u64) -> (r: Option<u64>)
    ensures
        match r {
            Some(v) => digits_only(s@) && s@.len() > 0 && v == dec_value(s@) && v <= cap,
            None => s@.len() == 0 || !digits_only(s@) || dec_value(s@) > cap,
        },
{
    let n = s.unicode_len();
    if n == 0 {
        return None;
    }
    let mut acc: u64 = 0;
    let mut i: usize = 0;
    while i < n
        invariant
            n == s@.len(),
            0 < n,
            i <= n,
            digits_only(s@.subrange(0, i as int)),
            acc == dec_value(s@.subrange(0, i as int)),
            acc <= cap,
        decreases n - i,
    {
        let c = s.get_char(i);
        proof {
            assert(s@.subrange(0, i + 1).drop_last() =~= s@.subrange(0, i as int));
            assert(s@.subrange(0, i + 1).last() == s@[i as int]);
        }
        if !('0' <= c && c <= '9') {
            return None;
        }
        let d = (c as u32) - ('0' as u32);
        if acc > cap / 10 || (acc == cap / 10 && d as u64 > cap % 10) {
            proof {
                let full = s@;
                let pre = s@.subrange(0, i + 1);
                assert(dec_value(pre) > cap);
                lemma_dec_value_extend_monotonic(full, i + 1);
            }
            return None;
        }
        acc = acc * 10 + (d as u64);
        i = i + 1;
    }
    proof {
        assert(s@.subrange(0, n as int) =~= s@);
    }
    Some(acc)
}

/// Once a digit prefix exceeds a bound, the whole run does too.
proof fn lemma_dec_value_extend_monotonic(s: Seq<char>, i: int)
    requires
        0 <= i <= s.len(),
    ensures
        dec_value(s) >= dec_value(s.subrange(0, i)),
    decreases s.len() - i,
{
    if i < s.len() {
        lemma_dec_value_extend_monotonic(s, i + 1);
        assert(s.subrange(0, i + 1).drop_last() =~= s.subrange(0, i));
        assert(dec_value(s.subrange(0, i + 1)) >= dec_value(s.subrange(0, i)));
    } else {
        assert(s.subrange(0, i) =~= s);
    }
}

/// Ten to a small non-negative power.
pub open spec fn pow_ten(n: int) -> int
    decreases n,
{
    if n <= 0 {
        1
    } else {
        10 * pow_ten(n - 1)
    }
}

/// More digits never shrink the power.
pub proof fn lemma_pow_ten_mono(a: int, b: int)
    requires
        0 <= a <= b,
    ensures
        pow_ten(a) <= pow_ten(b),
        pow_ten(a) >= 1,
    decreases b,
{
    if a < b {
        lemma_pow_ten_mono(a, b - 1);
    } else if b > 0 {
        lemma_pow_ten_mono(0, b - 1);
    }
}

/// A digit run's value stays under ten to its length.
pub proof fn lemma_dec_value_digits_bound(s: Seq<char>)
    requires
        digits_only(s),
    ensures
        dec_value(s) < pow_ten(s.len() as int),
    decreases s.len(),
{
    if s.len() > 0 {
        assert(digits_only(s.drop_last())) by {
            assert(forall|i: int|
                0 <= i < s.drop_last().len() ==> #[trigger] s.drop_last()[i] == s[i]);
        }
        lemma_dec_value_digits_bound(s.drop_last());
        assert(s.last() as int - '0' as int <= 9);
    }
}

/// The powers of ten the coordinate parser compares against.
pub proof fn lemma_pow_ten_values()
    ensures
        pow_ten(6) == 1_000_000,
        pow_ten(9) == 1_000_000_000,
{
    assert(pow_ten(0) == 1);
    assert(pow_ten(1) == 10);
    assert(pow_ten(2) == 100);
    assert(pow_ten(3) == 1_000);
    assert(pow_ten(4) == 10_000);
    assert(pow_ten(5) == 100_000);
    assert(pow_ten(6) == 1_000_000);
    assert(pow_ten(7) == 10_000_000);
    assert(pow_ten(8) == 100_000_000);
    assert(pow_ten(9) == 1_000_000_000);
}

/// The decimal digit character for `d < 10`.
pub open spec fn digit_char(d: nat) -> char {
    if d == 0 { '0' }
    else if d == 1 { '1' }
    else if d == 2 { '2' }
    else if d == 3 { '3' }
    else if d == 4 { '4' }
    else if d == 5 { '5' }
    else if d == 6 { '6' }
    else if d == 7 { '7' }
    else if d == 8 { '8' }
    else { '9' }
}

/// The decimal digit string of `n`, most significant digit first.
pub open spec fn dec_digits(n: nat) -> Seq<char>
    decreases n,
{
    if n < 10 {
        seq![digit_char(n)]
    } else {
        dec_digits(n / 10).push(digit_char(n % 10))
    }
}

/// Formats `n` in decimal.
pub fn dec_string(n: u64) -> (r: String)
    ensures
        r@ == dec_digits(n as nat),
    decreases n,
{
    let d = n % 10;
    let c = digit_to_char(d);
    if n < 10 {
        let mut s = String::new();
        s.push(c);
        proof {
            assert(Seq::<char>::empty().push(digit_char(n as nat)) =~= seq![
                digit_char(n as nat),
            ]);
        }
        s
    } else {
        let mut s = dec_string(n / 10);
        s.push(c);
        s
    }
}

fn digit_to_char(d: u64) -> (c: char)
    requires
        d < 10,
    ensures
        c == digit_char(d as nat),
{
    if d == 0 { '0' }
    else if d == 1 { '1' }
    else if d == 2 { '2' }
    else if d == 3 { '3' }
    else if d == 4 { '4' }
    else if d == 5 { '5' }
    else if d == 6 { '6' }
    else if d == 7 { '7' }
    else if d == 8 { '8' }
    else { '9' }
}

/// `needle` occurs contiguously inside `haystack`.
pub open spec fn contains_seq(haystack: Seq<char>, needle: Seq<char>) -> bool {
    exists|i: int|
        0 <= i <= haystack.len() - needle.len() && #[trigger] haystack.subrange(
            i,
            i + needle.len() as int,
        ) == needle
}

/// Substring search, stated over the views.
pub fn str_contains(haystack: &str, needle: &str) -> (r: bool)
    ensures
        r == contains_seq(haystack@, needle@),
{
    let hn = haystack.unicode_len();
    let nn = needle.unicode_len();
    if nn > hn {
        return false;
    }
    if nn == 0 {
        proof {
            assert(haystack@.subrange(0, 0 + needle@.len() as int) =~= needle@);
            assert(contains_seq(haystack@, needle@));
        }
        return true;
    }
    let mut i: usize = 0;
    while i <= hn - nn
        invariant
            hn == haystack@.len(),
            nn == needle@.len(),
            nn <= hn,
            1 <= nn,
            i <= hn - nn + 1,
            forall|k: int|
                0 <= k < i ==> #[trigger] haystack@.subrange(k, k + needle@.len() as int)
                    != needle@,
        decreases hn - i,
    {
        let sub = haystack.substring_char(i, i + nn);
        if str_eq(sub, needle) {
            return true;
        }
        i = i + 1;
    }

    proof {
        if contains_seq(haystack@, needle@) {
            let w = choose|k: int|
                0 <= k <= haystack@.len() - needle@.len() && #[trigger] haystack@.subrange(
                    k,
                    k + needle@.len() as int,
                ) == needle@;
            assert(haystack@.subrange(w, w + needle@.len() as int) != needle@);
        }
    }
    false
}

} // verus!
