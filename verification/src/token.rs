//! Reading a room number from what the player typed.
//!
//! A token is a number when it is one or more decimal digits, with an
//! optional `+` in front and nothing else. Its value is the usual one, however
//! long the token is.

use vstd::prelude::*;
use vstd::std_specs::iter::IteratorSpec;

verus! {

/// `c` is one of the ten decimal digits, whose codes run from 48 for `0` to
/// 57 for `9`.
pub open spec fn is_digit(c: char) -> bool {
    48 <= c as u32 <= 57
}

/// The value of a decimal digit.
pub open spec fn digit_value(c: char) -> nat {
    (c as u32 - 48) as nat
}

/// The number that a string of digits writes, most significant digit first.
pub open spec fn digits_value(digits: Seq<char>) -> nat
    decreases digits.len(),
{
    if digits.len() == 0 {
        0
    } else {
        10 * digits_value(digits.drop_last()) + digit_value(digits.last())
    }
}

/// The token without the plus sign that may stand in front of it.
pub open spec fn unsigned_part(token: Seq<char>) -> Seq<char> {
    if token.len() > 0 && token[0] == '+' {
        token.drop_first()
    } else {
        token
    }
}

/// The token is a number: at least one digit, and digits only, after the
/// optional plus sign.
pub open spec fn is_number(token: Seq<char>) -> bool {
    let digits = unsigned_part(token);
    digits.len() > 0 && forall|i: int| 0 <= i < digits.len() ==> is_digit(#[trigger] digits[i])
}

/// The number that the token writes, or `None` where it writes none.
pub open spec fn number_value(token: Seq<char>) -> Option<nat> {
    if is_number(token) {
        Some(digits_value(unsigned_part(token)))
    } else {
        None
    }
}

/// `value` where it fits the machine's word, and the largest word otherwise.
pub open spec fn saturated(value: nat) -> usize {
    if value <= usize::MAX {
        value as usize
    } else {
        usize::MAX
    }
}

/// `total` with the digit `digit` written behind it, or the largest word
/// where that does not fit or `total` is the largest word already.
fn push_digit(total: usize, digit: usize) -> (pushed: usize)
    requires
        digit < 10,
    ensures
        forall|value: nat|
            total == saturated(value) ==> pushed == #[trigger] saturated(
                (10 * value + digit) as nat,
            ),
{
    if total > (usize::MAX - digit) / 10 {
        usize::MAX
    } else {
        total * 10 + digit
    }
}

/// Reads the number that `token` writes. A number too large for `usize` is
/// returned as `usize::MAX`; a token that is no number gives `None`.
pub fn parse_number(token: &str) -> (parsed: Option<usize>)
    ensures
        parsed == match number_value(token@) {
            Some(value) => Some(saturated(value)),
            None => None,
        },
{
    let mut rest = token.chars();
    let mut total: usize = 0;
    let mut signed = false;
    let mut any = false;
    let ghost mut digits: Seq<char> = Seq::empty();
    loop
        invariant
            rest.obeys_prophetic_iter_laws(),
            rest.decrease() is Some,
            token@ == (if signed {
                seq!['+']
            } else {
                Seq::empty()
            }) + digits + rest.remaining(),
            forall|i: int| 0 <= i < digits.len() ==> is_digit(#[trigger] digits[i]),
            any == (digits.len() > 0),
            total == saturated(digits_value(digits)),
        decreases rest.decrease()->0,
    {
        let ghost before = rest.remaining();
        match rest.next() {
            None => {
                proof {
                    if signed {
                        assert(token@ =~= seq!['+'] + digits);
                        assert(unsigned_part(token@) =~= digits);
                    } else {
                        assert(token@ =~= digits);
                        assert(unsigned_part(token@) =~= digits);
                    }
                }
                return if any {
                    Some(total)
                } else {
                    None
                };
            },
            Some(c) => {
                assert(before =~= seq![c] + rest.remaining());
                let code: u32 = c as u32;
                if c == '+' && !signed && !any {
                    signed = true;
                    assert(token@ =~= seq!['+'] + digits + rest.remaining());
                } else if 48 <= code && code <= 57 {
                    proof {
                        let longer = digits.push(c);
                        assert(longer.drop_last() =~= digits);
                        assert(token@ =~= (if signed {
                            seq!['+']
                        } else {
                            Seq::empty()
                        }) + longer + rest.remaining());
                        digits = longer;
                    }
                    total = push_digit(total, (code - 48) as usize);
                    any = true;
                } else {
                    proof {
                        let at = digits.len() as int;
                        if signed {
                            assert(unsigned_part(token@) =~= digits + before);
                        } else {
                            assert(token@ =~= digits + before);
                            assert(token@[0] != '+');
                        }
                        assert(unsigned_part(token@)[at] == c);
                    }
                    return None;
                }
            },
        }
    }
}

} // verus!
