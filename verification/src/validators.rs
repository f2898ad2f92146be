//! Checks on numeric query strings.

use vstd::prelude::*;
use crate::text::digits_only;

verus! {

/// `s` is a plain digit run, or two digit runs joined by a single `.`.
pub open spec fn decimal_shape(s: Seq<char>) -> bool {
    if s.contains('.') {
        exists|i: int|
            0 <= i < s.len() && s[i] == '.' && digits_only(s.subrange(0, i))
                && digits_only(s.subrange(i + 1, s.len() as int)) && !s.subrange(
                i + 1,
                s.len() as int,
            ).contains('.')
    } else {
        digits_only(s)
    }
}

/// True when every character of the string is a decimal digit.
pub fn is_integer_str(str_ref: &str) -> (r: bool)
    ensures
        r == digits_only(str_ref@),
{
    let n = str_ref.unicode_len();
    let mut i: usize = 0;
    while i < n
        invariant
            n == str_ref@.len(),
            i <= n,
            forall|k: int| 0 <= k < i ==> ('0' <= #[trigger] str_ref@[k] <= '9'),
        decreases n - i,
    {
        let c = str_ref.get_char(i);
        if !('0' <= c && c <= '9') {
            return false;
        }
        i = i + 1;
    }
    true
}

/// True when the string is an unsigned decimal number: digits with at most
/// one `.` between two digit runs.
pub fn is_decimal_str(str_ref: &str) -> (r: bool)
    ensures
        r == decimal_shape(str_ref@),
{
    let n = str_ref.unicode_len();
    let mut dot: usize = 0;
    let mut seen_dot = false;
    let mut i: usize = 0;
    while i < n
        invariant
            n == str_ref@.len(),
            i <= n,
            seen_dot ==> dot < i && str_ref@[dot as int] == '.',
            seen_dot ==> forall|k: int| 0 <= k < i && str_ref@[k] == '.' ==> k == dot,
            !seen_dot ==> forall|k: int| 0 <= k < i ==> str_ref@[k] != '.',
        decreases n - i,
    {
        if str_ref.get_char(i) == '.' {
            if seen_dot {
                // a second dot: not a decimal number
                assert(str_ref@.contains('.')) by {
                    assert(str_ref@[dot as int] == '.');
                }
                assert(!decimal_shape(str_ref@)) by {
                    assert forall|p: int|
                        0 <= p < str_ref@.len() && str_ref@[p] == '.' && digits_only(
                            str_ref@.subrange(0, p),
                        ) implies !(digits_only(str_ref@.subrange(p + 1, str_ref@.len() as int))
                        && !str_ref@.subrange(p + 1, str_ref@.len() as int).contains('.')) by {
                        // both dots cannot sit before p, so one stands after it
                        if p < dot {
                            assert(str_ref@.subrange(p + 1, str_ref@.len() as int)[dot - p - 1]
                                == '.');
                            assert(str_ref@.subrange(p + 1, str_ref@.len() as int).contains('.'));
                        } else if p < i {
                            assert(str_ref@.subrange(p + 1, str_ref@.len() as int)[i - p - 1]
                                == '.');
                            assert(str_ref@.subrange(p + 1, str_ref@.len() as int).contains('.'));
                        } else {
                            assert(str_ref@.subrange(0, p)[dot as int] == '.');
                            assert(!digits_only(str_ref@.subrange(0, p)));
                        }
                    }
                }
                return false;
            }
            dot = i;
            seen_dot = true;
        }
        i = i + 1;
    }
    if seen_dot {
        let head = str_ref.substring_char(0, dot);
        let tail = str_ref.substring_char(dot + 1, n);
        let r = is_integer_str(head) && is_integer_str(tail);
        proof {
            assert(str_ref@.contains('.')) by {
                assert(str_ref@[dot as int] == '.');
            }
            if r {
                assert(decimal_shape(str_ref@)) by {
                    assert(str_ref@[dot as int] == '.');
                    assert(digits_only(str_ref@.subrange(0, dot as int)));
                    assert(!str_ref@.subrange(dot + 1, str_ref@.len() as int).contains('.'))
                        by {
                        assert forall|k: int|
                            0 <= k < str_ref@.subrange(dot + 1, str_ref@.len() as int).len()
                            implies #[trigger] str_ref@.subrange(dot + 1, str_ref@.len() as int)[k]
                            != '.' by {
                            assert(str_ref@.subrange(dot + 1, str_ref@.len() as int)[k]
                                == str_ref@[dot + 1 + k]);
                        }
                    }
                }
            } else {
                assert(!decimal_shape(str_ref@)) by {
                    assert forall|p: int|
                        0 <= p < str_ref@.len() && str_ref@[p] == '.' implies !(digits_only(
                        str_ref@.subrange(0, p),
                    ) && digits_only(str_ref@.subrange(p + 1, str_ref@.len() as int))
                        && !str_ref@.subrange(p + 1, str_ref@.len() as int).contains('.')) by {
                        assert(p == dot);
                    }
                }
            }
        }
        r
    } else {
        let r = is_integer_str(str_ref);
        proof {
            if str_ref@.contains('.') {
                let witness = choose|k: int|
                    0 <= k < str_ref@.len() && str_ref@[k] == '.';
                assert(str_ref@[witness] != '.');
            }
        }
        r
    }
}

} // verus!
