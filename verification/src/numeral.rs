//! Numerals as text: an optional minus sign and decimal digits.

use vstd::prelude::*;
use vstd::string::*;
use vstd::utf8::is_ascii_chars;
use crate::types::Numeral;

verus! {

/// Whether `c` is one of the ten decimal digits.
pub open spec fn is_digit(c: char) -> bool {
    '0' <= c <= '9'
}

/// The digit that stands for `d`, which is less than ten.
pub open spec fn digit_char(d: int) -> char {
    seq!['0', '1', '2', '3', '4', '5', '6', '7', '8', '9'][d]
}

/// Whether every character of `text` is a decimal digit.
pub open spec fn all_digits(text: Seq<char>) -> bool {
    forall|i: int| 0 <= i < text.len() ==> is_digit(#[trigger] text[i])
}

/// The number that the decimal digits `text` spell, leading zeros
/// allowed. A character that is no digit counts as zero.
pub open spec fn digits_value(text: Seq<char>) -> nat
    decreases text.len(),
{
    if text.len() == 0 {
        0
    } else {
        let last = if is_digit(text.last()) {
            (text.last() as int - '0' as int) as nat
        } else {
            0
        };
        digits_value(text.drop_last()) * 10 + last
    }
}

/// The decimal digits of `n`, without leading zeros.
pub open spec fn digits_of(n: nat) -> Seq<char>
    decreases n,
{
    if n < 10 {
        seq![digit_char(n as int)]
    } else {
        digits_of(n / 10).push(digit_char((n % 10) as int))
    }
}

/// The numeral that `text` spells: a minus sign or none, and then at least
/// one decimal digit. There is none if `text` is not of that form, or if
/// the digits spell two to the power of 128 or more.
pub open spec fn spelled(text: Seq<char>) -> Option<Numeral> {
    let negative = text.len() > 0 && text[0] == '-';
    let digits = if negative {
        text.subrange(1, text.len() as int)
    } else {
        text
    };
    if digits.len() > 0 && all_digits(digits) && digits_value(digits) <= u128::MAX {
        Some(Numeral { negative, magnitude: digits_value(digits) as u128 })
    } else {
        None
    }
}

/// How `numeral` is spelled: a minus sign if it is negative, and the
/// digits of its magnitude without leading zeros.
pub open spec fn spelling(numeral: Numeral) -> Seq<char> {
    if numeral.negative {
        seq!['-'] + digits_of(numeral.magnitude as nat)
    } else {
        digits_of(numeral.magnitude as nat)
    }
}

/// The digits of a number, the last digit first, as characters in the
/// order of writing.
pub open spec fn written(last_first: Seq<u8>) -> Seq<char>
    decreases last_first.len(),
{
    if last_first.len() == 0 {
        Seq::empty()
    } else {
        seq![digit_char(last_first.last() as int)] + written(last_first.drop_last())
    }
}

/// More digits never spell a smaller number.
pub proof fn lemma_prefix_value(text: Seq<char>, length: int)
    requires
        0 <= length <= text.len(),
    ensures
        digits_value(text.subrange(0, length)) <= digits_value(text),
    decreases text.len() - length,
{
    if length == text.len() {
        assert(text.subrange(0, length) =~= text);
    } else {
        lemma_prefix_value(text.drop_last(), length);
        assert(text.drop_last().subrange(0, length) =~= text.subrange(0, length));
    }
}

/// Text that spells a numeral holds ASCII characters only.
pub proof fn lemma_spelled_is_ascii(text: Seq<char>)
    requires
        spelled(text) is Some,
    ensures
        is_ascii_chars(text),
{
    let negative = text.len() > 0 && text[0] == '-';
    let digits = if negative {
        text.subrange(1, text.len() as int)
    } else {
        text
    };
    assert forall|i: int| 0 <= i < text.len() implies '\0' <= #[trigger] text[i] <= '\u{7f}' by {
        if negative {
            if i > 0 {
                assert(is_digit(digits[i - 1]));
            }
        } else {
            assert(is_digit(digits[i]));
        }
    }
}

/// The digits of a number are digits, and spell the number.
pub proof fn lemma_digits_spell(n: nat)
    ensures
        digits_of(n).len() > 0,
        all_digits(digits_of(n)),
        digits_value(digits_of(n)) == n,
    decreases n,
{
    if n < 10 {
        let text = digits_of(n);
        assert(text.drop_last() =~= Seq::<char>::empty());
        assert(digits_value(text.drop_last()) == 0);
    } else {
        lemma_digits_spell(n / 10);
        let text = digits_of(n);
        assert(text.drop_last() =~= digits_of(n / 10));
        assert(text.last() == digit_char((n % 10) as int));
    }
}

/// The spelling of a numeral spells that numeral: what `to_text` writes,
/// `parse` reads back.
pub proof fn law_spelling_round_trip(numeral: Numeral)
    ensures
        spelled(spelling(numeral)) == Some(numeral),
{
    let digits = digits_of(numeral.magnitude as nat);
    lemma_digits_spell(numeral.magnitude as nat);
    let text = spelling(numeral);
    if numeral.negative {
        assert(text[0] == '-');
        assert(text.subrange(1, text.len() as int) =~= digits);
    } else {
        assert(is_digit(digits[0]));
        assert(text[0] != '-');
    }
}

fn digit_text(d: u8) -> (text: &'static str)
    requires
        d < 10,
    ensures
        text@ == seq![digit_char(d as int)],
{
    proof {
        reveal_strlit("0");
        reveal_strlit("1");
        reveal_strlit("2");
        reveal_strlit("3");
        reveal_strlit("4");
        reveal_strlit("5");
        reveal_strlit("6");
        reveal_strlit("7");
        reveal_strlit("8");
        reveal_strlit("9");
    }
    let text = match d {
        0 => "0",
        1 => "1",
        2 => "2",
        3 => "3",
        4 => "4",
        5 => "5",
        6 => "6",
        7 => "7",
        8 => "8",
        _ => "9",
    };
    assert(text@ =~= seq![digit_char(d as int)]);
    text
}

impl Numeral {
    /// Reads a numeral: a minus sign or none, and then at least one decimal
    /// digit. Leading zeros are allowed. `None` is returned for text of
    /// another form, and for digits that spell two to the power of 128 or
    /// more.
    pub fn parse(text: &str) -> (numeral: Option<Numeral>)
        ensures
            numeral == spelled(text@),
    {
        if !text.is_ascii() {
            proof {
                if spelled(text@) is Some {
                    lemma_spelled_is_ascii(text@);
                }
            }
            return None;
        }
        proof {
            is_ascii_spec_bytes(text);
        }
        let bytes = text.as_bytes();
        let length = bytes.len();
        let negative = length > 0 && bytes[0] == 45;
        let start: usize = if negative { 1 } else { 0 };
        let ghost digits = if negative {
            text@.subrange(1, text@.len() as int)
        } else {
            text@
        };
        assert(negative == (text@.len() > 0 && text@[0] == '-'));
        if start == length {
            return None;
        }
        let mut magnitude: u128 = 0;
        let mut i: usize = start;
        assert(digits.subrange(0, 0) =~= Seq::<char>::empty());
        while i < length
            invariant
                start <= i <= length,
                length == text@.len(),
                length == bytes@.len(),
                is_ascii_chars(text@),
                forall|j: int| 0 <= j < length ==> bytes@[j] == text@[j] as u8,
                negative == (text@.len() > 0 && text@[0] == '-'),
                digits == (if negative {
                    text@.subrange(1, text@.len() as int)
                } else {
                    text@
                }),
                digits.len() == length - start,
                forall|j: int| 0 <= j < digits.len() ==> digits[j] == text@[j + start],
                all_digits(digits.subrange(0, i - start)),
                magnitude == digits_value(digits.subrange(0, i - start)),
            decreases length - i,
        {
            let byte = bytes[i];
            let ghost c = text@[i as int];
            assert(c == digits[i - start]);
            assert('\0' <= c <= '\u{7f}');
            assert(byte == c as u8);
            if byte < 48 || byte > 57 {
                assert(!is_digit(digits[i - start]));
                return None;
            }
            let digit = (byte - 48) as u128;
            let ghost longer = digits.subrange(0, i - start + 1);
            proof {
                assert(longer.drop_last() =~= digits.subrange(0, i - start));
                assert(longer.last() == c);
                assert(is_digit(c));
                assert(digits_value(longer) == magnitude * 10 + digit);
                lemma_prefix_value(digits, i - start + 1);
            }
            match magnitude.checked_mul(10) {
                Some(shifted) => match shifted.checked_add(digit) {
                    Some(next) => {
                        magnitude = next;
                    },
                    None => {
                        return None;
                    },
                },
                None => {
                    return None;
                },
            }
            i = i + 1;
        }
        assert(digits.subrange(0, i - start) =~= digits);
        Some(Numeral { negative, magnitude })
    }

    /// Writes the numeral: a minus sign if it is negative, and the digits
    /// of its magnitude without leading zeros.
    pub fn to_text(&self) -> (text: String)
        ensures
            text@ == spelling(*self),
    {
        let mut last_first: Vec<u8> = Vec::new();
        let mut left = self.magnitude;
        assert(written(last_first@) =~= Seq::<char>::empty());
        assert(digits_of(left as nat) + written(last_first@) =~= digits_of(left as nat));
        while left >= 10
            invariant
                digits_of(self.magnitude as nat) == digits_of(left as nat) + written(
                    last_first@,
                ),
                forall|j: int| 0 <= j < last_first@.len() ==> last_first@[j] < 10,
            decreases left,
        {
            let digit = (left % 10) as u8;
            let ghost before = last_first@;
            last_first.push(digit);
            proof {
                assert(last_first@.drop_last() =~= before);
                assert(digits_of(left as nat) == digits_of((left / 10) as nat).push(
                    digit_char(digit as int),
                ));
                assert(digits_of((left / 10) as nat) + written(last_first@) =~= digits_of(
                    left as nat,
                ) + written(before));
            }
            left = left / 10;
        }
        let ghost before = last_first@;
        last_first.push(left as u8);
        proof {
            assert(last_first@.drop_last() =~= before);
            assert(written(last_first@) =~= digits_of(left as nat) + written(before));
        }
        let mut text = String::new();
        if self.negative {
            text.append("-");
            proof {
                reveal_strlit("-");
            }
        }
        let ghost sign = text@;
        let mut i = last_first.len();
        assert(last_first@.subrange(0, i as int) =~= last_first@);
        assert(text@ + written(last_first@) =~= sign + written(last_first@));
        while i > 0
            invariant
                i <= last_first@.len(),
                forall|j: int| 0 <= j < last_first@.len() ==> last_first@[j] < 10,
                text@ + written(last_first@.subrange(0, i as int)) == sign + written(last_first@),
            decreases i,
        {
            let ghost so_far = text@;
            let ghost head = last_first@.subrange(0, i as int);
            i = i - 1;
            text.append(digit_text(last_first[i]));
            proof {
                assert(head.drop_last() =~= last_first@.subrange(0, i as int));
                assert(head.last() == last_first@[i as int]);
                assert(text@ + written(last_first@.subrange(0, i as int)) =~= so_far + written(
                    head,
                ));
            }
        }
        proof {
            assert(last_first@.subrange(0, 0) =~= Seq::<u8>::empty());
            assert(text@ + written(last_first@.subrange(0, 0)) =~= text@);
            assert(sign + written(last_first@) =~= spelling(*self));
        }
        text
    }
}

} // verus!
