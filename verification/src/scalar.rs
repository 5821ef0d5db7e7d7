//! The texts of the scalar types: integers in decimal and the two truth values.

use crate::text::{chars_of, same_text};
use vstd::prelude::*;

verus! {

/// Whether `c` is one of the ten decimal digits.
pub open spec fn is_digit(c: char) -> bool {
    '0' <= c && c <= '9'
}

/// The value of the digit `c`.
pub open spec fn digit(c: char) -> int {
    c as int - '0' as int
}

/// Whether `text` holds decimal digits only.
pub open spec fn all_digits(text: Seq<char>) -> bool {
    forall|i: int| 0 <= i < text.len() ==> is_digit(#[trigger] text[i])
}

/// The number that a run of digits denotes.
pub open spec fn number(digits: Seq<char>) -> int
    decreases digits.len(),
{
    if digits.len() == 0 {
        0
    } else {
        10 * number(digits.drop_last()) + digit(digits.last())
    }
}

/// The integer that `text` denotes: an optional sign, `+` or, for a signed
/// type, `-`, and then at least one digit and nothing else.
pub open spec fn decimal(text: Seq<char>, signed: bool) -> Option<int> {
    if text.len() == 0 {
        None
    } else {
        let negative = signed && text[0] == '-';
        let digits = if text[0] == '+' || negative {
            text.skip(1)
        } else {
            text
        };
        if digits.len() == 0 || !all_digits(digits) {
            None
        } else if negative {
            Some(-number(digits))
        } else {
            Some(number(digits))
        }
    }
}

/// The integer that `text` denotes, where it lies from `min` to `max`.
pub open spec fn decimal_within(text: Seq<char>, signed: bool, min: int, max: int) -> Option<int> {
    match decimal(text, signed) {
        Some(n) => if min <= n <= max {
            Some(n)
        } else {
            None
        },
        None => None,
    }
}

/// The truth value that `text` denotes: `true` or `false`, written so.
pub open spec fn truth(text: Seq<char>) -> Option<bool> {
    if text == "true"@ {
        Some(true)
    } else if text == "false"@ {
        Some(false)
    } else {
        None
    }
}

/// The number of a run of digits is at least that of each of its beginnings,
/// and none is negative.
proof fn lemma_number_grows(digits: Seq<char>, k: int)
    requires
        all_digits(digits),
        0 <= k <= digits.len(),
    ensures
        0 <= number(digits.take(k)) <= number(digits),
    decreases digits.len(),
{
    if digits.len() == 0 {
        assert(digits.take(k) =~= digits);
    } else if k == digits.len() {
        assert(digits.take(k) =~= digits);
        lemma_number_grows(digits.drop_last(), k - 1);
        assert(digits.drop_last().take(k - 1) =~= digits.take(k - 1));
        assert(is_digit(digits.last()));
        lemma_number_grows(digits.drop_last(), digits.len() - 1);
        assert(digits.drop_last().take(digits.len() - 1) =~= digits.drop_last());
    } else {
        assert(is_digit(digits.last()));
        lemma_number_grows(digits.drop_last(), k);
        assert(digits.drop_last().take(k) =~= digits.take(k));
    }
}

/// Reads `value` as a decimal integer from `min` to `max`.
pub fn parse_decimal(value: &str, signed: bool, min: i128, max: i128) -> (r: Option<i128>)
    ensures
        r matches Some(n) ==> decimal_within(value@, signed, min as int, max as int) == Some(
            n as int,
        ),
        r is None ==> decimal_within(value@, signed, min as int, max as int) is None,
{
    let chars = chars_of(value);
    if chars.len() == 0 {
        return None;
    }
    let negative = signed && chars[0] == '-';
    let start: usize = if chars[0] == '+' || negative {
        1
    } else {
        0
    };
    if start == chars.len() {
        return None;
    }
    let ghost digits = chars@.skip(start as int);
    assert(chars@.skip(0) =~= chars@);
    assert(digits.take(0) =~= Seq::<char>::empty());
    let mut acc: i128 = 0;
    let mut i: usize = start;
    while i < chars.len()
        invariant
            start <= i <= chars.len(),
            chars@ == value@,
            chars.len() > 0,
            negative == (signed && chars@[0] == '-'),
            start == (if chars@[0] == '+' || negative {
                1int
            } else {
                0int
            }),
            digits == (if chars@[0] == '+' || negative {
                chars@.skip(1)
            } else {
                chars@
            }),
            digits.len() == chars.len() - start,
            all_digits(digits.take(i - start)),
            negative ==> acc == -number(digits.take(i - start)) && acc <= 0,
            !negative ==> acc == number(digits.take(i - start)) && 0 <= acc,
        decreases chars.len() - i,
    {
        let c = chars[i];
        if !('0' <= c && c <= '9') {
            proof {
                assert(digits[i - start] == c);
            }
            return None;
        }
        let d: i128 = ((c as u8) - 48) as i128;
        proof {
            let before = digits.take(i - start);
            let after = digits.take(i - start + 1);
            assert(after.drop_last() =~= before);
            assert(after.last() == c);
            assert(all_digits(after));
            assert(number(after) == 10 * number(before) + digit(c));
            if all_digits(digits) {
                lemma_number_grows(digits, i - start + 1);
            }
        }
        let next = match acc.checked_mul(10) {
            Some(tenfold) => if negative {
                tenfold.checked_sub(d)
            } else {
                tenfold.checked_add(d)
            },
            None => None,
        };
        match next {
            Some(n) => {
                if (negative && n < min) || (!negative && n > max) {
                    return None;
                }
                acc = n;
            },
            None => {
                return None;
            },
        }
        i += 1;
    }
    proof {
        assert(digits.take(i - start) =~= digits);
    }
    if acc < min || acc > max {
        None
    } else {
        Some(acc)
    }
}

/// Reads `value` as a truth value.
pub fn parse_truth(value: &str) -> (r: Option<bool>)
    ensures
        r == truth(value@),
{
    if same_text(value, "true") {
        Some(true)
    } else if same_text(value, "false") {
        Some(false)
    } else {
        None
    }
}

} // verus!
