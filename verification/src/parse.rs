//! Literal parsing for the argument coercer: decimal 128-bit signed integers
//! and boolean literals, with an exact characterization of the accepted
//! strings and their values.

use vstd::prelude::*;
use crate::text::str_eq;

verus! {

/// True of the ASCII decimal digits `'0'` through `'9'`.
pub open spec fn is_ascii_digit(c: char) -> bool {
    48 <= c as u32 <= 57
}

/// The numeric value of an ASCII decimal digit.
pub open spec fn digit_val(c: char) -> int {
    c as u32 - 48
}

/// True when every character of `s` is an ASCII decimal digit.
pub open spec fn all_digits(s: Seq<char>) -> bool {
    forall|i: int| 0 <= i < s.len() ==> is_ascii_digit(#[trigger] s[i])
}

/// The value of a digit string read in base ten; zero for the empty string.
pub open spec fn digits_val(s: Seq<char>) -> int
    decreases s.len(),
{
    if s.len() == 0 {
        0
    } else {
        digits_val(s.drop_last()) * 10 + digit_val(s.last())
    }
}

/// The digit part of an integer literal: everything behind an optional
/// leading sign.
pub open spec fn int_body(s: Seq<char>) -> Seq<char> {
    if s.len() > 0 && (s[0] == '+' || s[0] == '-') {
        s.skip(1)
    } else {
        s
    }
}

/// True when the literal starts with a minus sign.
pub open spec fn int_negative(s: Seq<char>) -> bool {
    s.len() > 0 && s[0] == '-'
}

/// A well-formed integer literal: an optional sign followed by one or more
/// ASCII digits.
pub open spec fn is_int_literal(s: Seq<char>) -> bool {
    int_body(s).len() > 0 && all_digits(int_body(s))
}

/// The mathematical value of an integer literal.
pub open spec fn int_literal_value(s: Seq<char>) -> int {
    if int_negative(s) {
        -digits_val(int_body(s))
    } else {
        digits_val(int_body(s))
    }
}

/// True when `v` is representable as a 128-bit signed integer.
pub open spec fn fits_i128(v: int) -> bool {
    i128::MIN <= v <= i128::MAX
}

/// A digit string's value is never negative.
pub(crate) proof fn lemma_digits_val_nonneg(s: Seq<char>)
    requires
        all_digits(s),
    ensures
        digits_val(s) >= 0,
    decreases s.len(),
{
    if s.len() > 0 {
        assert(all_digits(s.drop_last()));
        lemma_digits_val_nonneg(s.drop_last());
    }
}

/// Reading one more digit multiplies the prefix value by ten and adds the
/// digit.
proof fn lemma_digits_val_step(s: Seq<char>, k: int)
    requires
        0 <= k < s.len(),
    ensures
        digits_val(s.take(k + 1)) == digits_val(s.take(k)) * 10 + digit_val(s[k]),
{
    assert(s.take(k + 1).drop_last() =~= s.take(k));
    assert(s.take(k + 1).last() == s[k]);
}

/// A digit string's value dominates the value of each of its prefixes.
proof fn lemma_digits_val_prefix_le(s: Seq<char>, k: int)
    requires
        all_digits(s),
        0 <= k <= s.len(),
    ensures
        digits_val(s.take(k)) <= digits_val(s),
    decreases s.len() - k,
{
    if k == s.len() {
        assert(s.take(k) =~= s);
    } else {
        assert(all_digits(s.take(k)));
        lemma_digits_val_nonneg(s.take(k));
        lemma_digits_val_step(s, k);
        lemma_digits_val_prefix_le(s, k + 1);
    }
}

/// Parses a string as a 128-bit signed decimal integer: an optional leading
/// `+` or `-` followed by one or more ASCII digits, accepted exactly when
/// the value fits the type.
pub fn parse_i128(s: &str) -> (r: Option<i128>)
    ensures
        r matches Some(v) ==> is_int_literal(s@) && fits_i128(int_literal_value(s@)) && v
            == int_literal_value(s@),
        r is None ==> !(is_int_literal(s@) && fits_i128(int_literal_value(s@))),
{
    let n = s.unicode_len();
    if n == 0 {
        return None;
    }
    let first = s.get_char(0);
    let signed = first == '-' || first == '+';
    let start: usize = if signed {
        1
    } else {
        0
    };
    proof {
        assert(int_body(s@) =~= s@.skip(start as int));
    }
    if start == n {
        return None;
    }
    let ghost body = s@.skip(start as int);
    let mut acc: i128 = 0;
    let mut i: usize = start;
    while i < n
        invariant
            start <= i <= n,
            n == s@.len(),
            start <= 1,
            body == s@.skip(start as int),
            body == int_body(s@),
            body.len() == n - start,
            all_digits(body.take(i - start)),
            acc == -digits_val(body.take(i - start)),
            i128::MIN <= acc <= 0,
        decreases n - i,
    {
        let c = s.get_char(i);
        let cu = c as u32;
        if cu < 48 || cu > 57 {
            proof {
                assert(body[i - start] == s@[i as int]);
                assert(!all_digits(body));
            }
            return None;
        }
        let d = (cu - 48) as i128;
        let ghost k = i - start;
        proof {
            lemma_digits_val_step(body, k);
            assert(all_digits(body.take(k + 1)));
        }
        let next = match acc.checked_mul(10) {
            Some(a) => a.checked_sub(d),
            None => None,
        };
        match next {
            Some(a) => {
                acc = a;
            },
            None => {
                proof {
                    lemma_digits_val_nonneg(body.take(k + 1));
                    assert(digits_val(body.take(k + 1)) > -(i128::MIN as int));
                    if all_digits(body) {
                        lemma_digits_val_prefix_le(body, k + 1);
                    }
                }
                return None;
            },
        }
        i += 1;
    }
    proof {
        assert(body.take(n - start) =~= body);
    }
    if first == '-' {
        Some(acc)
    } else {
        if acc == i128::MIN {
            proof {
                assert(digits_val(body) > i128::MAX as int);
            }
            None
        } else {
            Some(-acc)
        }
    }
}

/// True of exactly the two boolean literals.
pub open spec fn is_bool_literal(s: Seq<char>) -> bool {
    s == "true"@ || s == "false"@
}

/// The value of a boolean literal.
pub open spec fn bool_literal_value(s: Seq<char>) -> bool {
    s == "true"@
}

/// Parses a string as a boolean literal: exactly `"true"` or `"false"`.
pub fn parse_bool(s: &str) -> (r: Option<bool>)
    ensures
        r matches Some(v) ==> is_bool_literal(s@) && v == bool_literal_value(s@),
        r is None ==> !is_bool_literal(s@),
{
    if str_eq(s, "true") {
        Some(true)
    } else if str_eq(s, "false") {
        Some(false)
    } else {
        None
    }
}

} // verus!
