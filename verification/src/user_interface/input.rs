//! How a line of input is read: as one letter, or as a number.

use vstd::prelude::*;
use vstd::string::spec_iter;
use vstd::std_specs::iter::IteratorSpec;

verus! {

/// Whether `c` is one of the ten decimal digits.
pub open spec fn is_digit(c: char) -> bool {
    '0' <= c <= '9'
}

/// The number that a digit stands for.
pub open spec fn digit_value(c: char) -> int {
    c as u32 as int - '0' as u32 as int
}

/// Whether `text` is made of decimal digits only.
pub open spec fn all_digits(text: Seq<char>) -> bool {
    forall|i: int| 0 <= i < text.len() ==> is_digit(#[trigger] text[i])
}

/// The number that a run of digits stands for, read as a decimal numeral.
pub open spec fn decimal_value(digits: Seq<char>) -> int
    decreases digits.len(),
{
    if digits.len() == 0 {
        0
    } else {
        10 * decimal_value(digits.drop_last()) + digit_value(digits.last())
    }
}

/// The digits of a numeral: the text without a leading plus sign.
pub open spec fn unsigned_part(text: Seq<char>) -> Seq<char> {
    if text.len() > 0 && text[0] == '+' {
        text.drop_first()
    } else {
        text
    }
}

/// The identifier that `text` names: `text` is a plus sign or nothing,
/// followed by one or more decimal digits and nothing else, and the number
/// fits an identifier. Zeros in front do not count.
pub open spec fn number(text: Seq<char>) -> Option<u32> {
    let digits = unsigned_part(text);
    if digits.len() > 0 && all_digits(digits) && decimal_value(digits) <= u32::MAX {
        Some(decimal_value(digits) as u32)
    } else {
        None
    }
}

/// A numeral is never below the numeral of its first digits.
pub proof fn lemma_decimal_value_grows(digits: Seq<char>, shorter: int)
    requires
        all_digits(digits),
        0 <= shorter <= digits.len(),
    ensures
        0 <= decimal_value(digits.take(shorter)) <= decimal_value(digits),
    decreases digits.len(),
{
    if digits.len() == 0 {
        assert(digits.take(shorter) =~= digits);
    } else if shorter == digits.len() {
        assert(digits.take(shorter) =~= digits);
        lemma_decimal_value_grows(digits.drop_last(), 0);
        assert(is_digit(digits.last()));
        assert(digits.drop_last().take(0) =~= Seq::<char>::empty());
        lemma_decimal_value_grows(digits.drop_last(), digits.len() - 1);
        assert(digits.drop_last().take(digits.len() - 1) =~= digits.drop_last());
    } else {
        assert(all_digits(digits.drop_last())) by {
            assert forall|i: int| 0 <= i < digits.drop_last().len() implies is_digit(
                #[trigger] digits.drop_last()[i],
            ) by {
                assert(digits.drop_last()[i] == digits[i]);
            }
        }
        lemma_decimal_value_grows(digits.drop_last(), shorter);
        assert(digits.drop_last().take(shorter) =~= digits.take(shorter));
        assert(is_digit(digits.last()));
    }
}

/// The characters of a line.
pub fn chars_of(text: &str) -> (chars: Vec<char>)
    ensures
        chars@ == text@,
{
    broadcast use vstd::string::axiom_spec_iter;

    let mut chars: Vec<char> = Vec::new();
    for c in walk: text.chars()
        invariant
            walk.seq() == spec_iter(text).remaining(),
            chars@.len() == walk.index(),
            forall|i: int| 0 <= i < chars@.len() ==> chars@[i] == walk.seq()[i],
    {
        chars.push(c);
    }
    assert(chars@ =~= text@);
    chars
}

/// The letter that a line consists of, if it consists of exactly one
/// character.
pub fn single_char(chars: &Vec<char>) -> (letter: Option<char>)
    ensures
        letter == (if chars@.len() == 1 {
            Some(chars@[0])
        } else {
            None::<char>
        }),
{
    if chars.len() == 1 {
        Some(chars[0])
    } else {
        None
    }
}

/// The identifier that a line names, if it names one.
pub fn parse_id(chars: &Vec<char>) -> (id: Option<u32>)
    ensures
        id == number(chars@),
{
    let len: usize = chars.len();
    let start: usize = if len > 0 && chars[0] == '+' {
        1
    } else {
        0
    };
    let ghost digits = unsigned_part(chars@);
    assert(digits == chars@.subrange(start as int, len as int)) by {
        assert(chars@.subrange(0, len as int) =~= chars@);
    }
    if start == len {
        return None;
    }
    let mut value: u64 = 0;
    let mut at: usize = start;
    assert(digits.take(0) =~= Seq::<char>::empty());
    while at < len
        invariant
            start <= at <= len,
            len == chars@.len(),
            digits == unsigned_part(chars@),
            digits == chars@.subrange(start as int, len as int),
            all_digits(digits.take(at - start)),
            value == decimal_value(digits.take(at - start)),
            value <= u32::MAX,
        decreases len - at,
    {
        let c: char = chars[at];
        assert(c == digits[at - start]);
        if !(c >= '0' && c <= '9') {
            assert(!all_digits(digits));
            return None;
        }
        let digit: u64 = (c as u32 - '0' as u32) as u64;
        let ghost shorter = digits.take(at - start);
        let ghost longer = digits.take(at - start + 1);
        assert(longer.drop_last() =~= shorter);
        assert(longer.last() == c);
        assert(all_digits(longer)) by {
            assert forall|i: int| 0 <= i < longer.len() implies is_digit(#[trigger] longer[i]) by {
                if i < shorter.len() {
                    assert(longer[i] == shorter[i]);
                }
            }
        }
        value = 10 * value + digit;
        assert(value == decimal_value(longer));
        if value > 0xffff_ffff {
            proof {
                if all_digits(digits) {
                    lemma_decimal_value_grows(digits, at - start + 1);
                }
            }
            return None;
        }
        at = at + 1;
    }
    assert(digits.take(len - start) =~= digits);
    Some(value as u32)
}

} // verus!
