//! Base-10 integers as they are written in a header value.
//!
//! A number is an optional `+` or `-` followed by one or more ASCII digits
//! and nothing else; its value must fit in an `i64`.

use vstd::prelude::*;
use vstd::string::is_ascii_spec_bytes;

verus! {

/// Whether `c` is one of `0` to `9`.
pub open spec fn is_digit(c: char) -> bool {
    48 <= c as int <= 57
}

/// The number a digit stands for.
pub open spec fn digit_value(c: char) -> int {
    c as int - 48
}

/// Whether every character of `s` is a digit.
pub open spec fn all_digits(s: Seq<char>) -> bool {
    forall|i: int| 0 <= i < s.len() ==> is_digit(#[trigger] s[i])
}

/// The value of a run of digits, most significant first.
pub open spec fn digits_value(s: Seq<char>) -> int
    decreases s.len(),
{
    if s.len() == 0 {
        0
    } else {
        10 * digits_value(s.drop_last()) + digit_value(s.last())
    }
}

/// The digits of `s`: `s` without its sign, where it has one.
pub open spec fn unsigned_part(s: Seq<char>) -> Seq<char> {
    if s.len() > 0 && (s[0] == '-' || s[0] == '+') {
        s.subrange(1, s.len() as int)
    } else {
        s
    }
}

/// The integer that `s` denotes, whatever its size; `None` where `s` is not
/// a number.
pub open spec fn decimal_value(s: Seq<char>) -> Option<int> {
    let digits = unsigned_part(s);
    if digits.len() == 0 || !all_digits(digits) {
        None
    } else if s[0] == '-' {
        Some(-digits_value(digits))
    } else {
        Some(digits_value(digits))
    }
}

/// The `i64` that `s` denotes; `None` where `s` is not a number or its value
/// does not fit.
pub open spec fn decimal_i64(s: Seq<char>) -> Option<i64> {
    match decimal_value(s) {
        Some(v) => if i64::MIN <= v <= i64::MAX {
            Some(v as i64)
        } else {
            None
        },
        None => None,
    }
}

/// The value of a run of digits grows by one decimal place with each digit.
pub proof fn lemma_digits_value_step(s: Seq<char>, k: int)
    requires
        0 <= k < s.len(),
    ensures
        digits_value(s.subrange(0, k + 1)) == 10 * digits_value(s.subrange(0, k)) + digit_value(
            s[k],
        ),
{
    assert(s.subrange(0, k + 1).drop_last() =~= s.subrange(0, k));
}

/// No prefix of a run of digits is worth more than the whole run.
pub proof fn lemma_digits_value_prefix(s: Seq<char>, k: int)
    requires
        all_digits(s),
        0 <= k <= s.len(),
    ensures
        0 <= digits_value(s.subrange(0, k)) <= digits_value(s),
    decreases s.len() - k,
{
    if k == s.len() {
        assert(s.subrange(0, k) =~= s);
        lemma_digits_value_nonnegative(s);
    } else {
        lemma_digits_value_prefix(s, k + 1);
        lemma_digits_value_step(s, k);
        lemma_digits_value_nonnegative(s.subrange(0, k));
        assert(is_digit(s[k]));
    }
}

/// A run of digits is worth at least zero.
pub proof fn lemma_digits_value_nonnegative(s: Seq<char>)
    requires
        all_digits(s),
    ensures
        0 <= digits_value(s),
    decreases s.len(),
{
    if s.len() > 0 {
        assert(is_digit(s.last()));
        assert forall|i: int| 0 <= i < s.drop_last().len() implies is_digit(
            #[trigger] s.drop_last()[i],
        ) by {
            assert(s.drop_last()[i] == s[i]);
        }
        lemma_digits_value_nonnegative(s.drop_last());
    }
}

/// Reads a base-10 `i64`: an optional sign, then digits only. Leading zeros
/// are accepted; an empty string, a sign alone, any other character and a
/// value outside the range of `i64` are not.
pub fn parse_i64(text: &str) -> (r: Option<i64>)
    ensures
        r == decimal_i64(text@),
{
    if !text.is_ascii() {
        proof {
            lemma_not_ascii_not_decimal(text@);
        }
        return None;
    }
    let bytes = text.as_bytes();
    proof {
        is_ascii_spec_bytes(text);
    }
    let n = bytes.len();
    if n == 0 {
        return None;
    }
    let first = bytes[0];
    let negative = first == 45;
    assert(first == text@[0] as u8);
    assert('\0' <= text@[0] <= '\u{7f}');
    let start: usize = if first == 45 || first == 43 {
        1
    } else {
        0
    };
    let ghost digits = unsigned_part(text@);
    assert(digits =~= text@.subrange(start as int, n as int));
    if start == n {
        return None;
    }
    // The digits read so far, negated: the negative range is the larger one.
    let mut acc: i64 = 0;
    let mut i: usize = start;
    assert(digits.subrange(0, 0) =~= Seq::<char>::empty());
    while i < n
        invariant
            start <= i <= n,
            start < n,
            n == text@.len(),
            bytes@ == Seq::new(text@.len(), |j: int| text@[j] as u8),
            vstd::utf8::is_ascii_chars(text@),
            digits == unsigned_part(text@),
            digits == text@.subrange(start as int, n as int),
            all_digits(digits.subrange(0, i - start)),
            acc <= 0,
            acc == -digits_value(digits.subrange(0, i - start)),
        decreases n - i,
    {
        let b = bytes[i];
        assert(b == text@[i as int] as u8);
        assert(digits[i - start] == text@[i as int]);
        assert('\0' <= text@[i as int] <= '\u{7f}') by {
            assert(vstd::utf8::is_ascii_chars(text@));
        }
        if b < 48 || b > 57 {
            assert(!is_digit(digits[i - start]));
            return None;
        }
        proof {
            lemma_digits_value_step(digits, i - start);
            assert forall|j: int| 0 <= j < i - start + 1 implies is_digit(
                #[trigger] digits.subrange(0, i - start + 1)[j],
            ) by {
                if j < i - start {
                    assert(digits.subrange(0, i - start)[j] == digits[j]);
                }
            }
        }
        let d: i64 = (b - 48) as i64;
        let wide: i128 = acc as i128 * 10 - d as i128;
        if wide < i64::MIN as i128 {
            proof {
                if all_digits(digits) {
                    lemma_digits_value_prefix(digits, i - start + 1);
                }
            }
            return None;
        }
        acc = wide as i64;
        i += 1;
    }
    assert(digits.subrange(0, i - start) =~= digits);
    assert(negative == (text@[0] == '-'));
    if negative {
        Some(acc)
    } else if acc == i64::MIN {
        None
    } else {
        Some(-acc)
    }
}

/// A string with a character outside ASCII is not a number.
proof fn lemma_not_ascii_not_decimal(s: Seq<char>)
    requires
        !vstd::utf8::is_ascii_chars(s),
    ensures
        decimal_i64(s) is None,
{
    let i = choose|i: int| 0 <= i < s.len() && !('\0' <= #[trigger] s[i] <= '\u{7f}');
    let digits = unsigned_part(s);
    if i == 0 {
        assert(s[0] != '-' && s[0] != '+');
        assert(!is_digit(digits[0]));
    } else if s[0] == '-' || s[0] == '+' {
        assert(digits[i - 1] == s[i]);
        assert(!is_digit(digits[i - 1]));
    } else {
        assert(!is_digit(digits[i]));
    }
}

} // verus!
