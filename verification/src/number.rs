//! Reading whole numbers out of the decimal text of a number.

use vstd::prelude::*;

verus! {

/// Whether a character is one of the ten decimal digits.
pub open spec fn is_digit(c: char) -> bool {
    '0' <= c <= '9'
}

/// How many digits the text starts with.
pub open spec fn digits_len(text: Seq<char>) -> nat
    decreases text.len(),
{
    if text.len() == 0 || !is_digit(text[0]) {
        0
    } else {
        1 + digits_len(text.drop_first())
    }
}

/// The number that a run of digits writes.
pub open spec fn digits_value(digits: Seq<char>) -> nat
    decreases digits.len(),
{
    if digits.len() == 0 {
        0
    } else {
        digits_value(digits.drop_last()) * 10 + (digits.last() as int - '0' as int) as nat
    }
}

/// The whole number that a text starts with, and 0 where it starts with
/// no digit: `22` for `22.5`, and 0 for `-3`.
pub open spec fn whole_part(text: Seq<char>) -> nat {
    digits_value(text.take(digits_len(text) as int))
}

/// Whether anything follows the digits that a text starts with.
pub open spec fn has_more(text: Seq<char>) -> bool {
    digits_len(text) < text.len()
}

/// The leading digits end where the first character that is no digit stands.
pub proof fn lemma_digits_len(text: Seq<char>, i: int)
    requires
        0 <= i <= text.len(),
        forall|j: int| 0 <= j < i ==> is_digit(#[trigger] text[j]),
        i == text.len() || !is_digit(text[i]),
    ensures
        digits_len(text) == i,
    decreases i,
{
    if i > 0 {
        let rest = text.drop_first();
        assert forall|j: int| 0 <= j < i - 1 implies is_digit(#[trigger] rest[j]) by {
            assert(rest[j] == text[j + 1]);
        }
        lemma_digits_len(rest, i - 1);
    }
}

/// The natural number that a text writes in digits alone, if it does.
pub open spec fn unsigned_of(text: Seq<char>) -> Option<nat> {
    if text.len() > 0 && digits_len(text) == text.len() {
        Some(digits_value(text))
    } else {
        None
    }
}

/// A longer run of digits writes no smaller number.
pub proof fn lemma_digits_value_grows(digits: Seq<char>, i: int)
    requires
        0 <= i <= digits.len(),
        forall|j: int| 0 <= j < digits.len() ==> is_digit(#[trigger] digits[j]),
    ensures
        digits_value(digits.take(i)) <= digits_value(digits),
    decreases digits.len() - i,
{
    if i < digits.len() {
        lemma_digits_value_grows(digits, i + 1);
        assert(digits.take(i + 1).drop_last() =~= digits.take(i));
        assert(is_digit(digits[i]));
        assert(digits.take(i + 1).last() == digits[i]);
    } else {
        assert(digits.take(i) =~= digits);
    }
}

/// Where a text starts with nothing but digits, all its characters are digits.
pub proof fn lemma_all_digits(text: Seq<char>)
    requires
        digits_len(text) == text.len(),
    ensures
        forall|j: int| 0 <= j < text.len() ==> is_digit(#[trigger] text[j]),
    decreases text.len(),
{
    if text.len() > 0 {
        let rest = text.drop_first();
        lemma_all_digits(rest);
        assert forall|j: int| 0 <= j < text.len() implies is_digit(#[trigger] text[j]) by {
            if j > 0 {
                assert(text[j] == rest[j - 1]);
            }
        }
    }
}

/// Reads a natural number that is written in digits alone and fits in 64 bits.
pub fn read_unsigned(text: &str) -> (r: Option<u64>)
    ensures
        match r {
            Some(value) => unsigned_of(text@) == Some(value as nat),
            None => unsigned_of(text@) is None || unsigned_of(text@)->Some_0 > u64::MAX,
        },
{
    let len = text.unicode_len();
    if len == 0 {
        return None;
    }
    let mut value: u64 = 0;
    let mut i: usize = 0;
    assert(text@.take(0) =~= Seq::empty());
    while i < len
        invariant
            len == text@.len(),
            i <= len,
            forall|j: int| 0 <= j < i ==> is_digit(#[trigger] text@[j]),
            value == digits_value(text@.take(i as int)),
        decreases len - i,
    {
        let c = text.get_char(i);
        if !('0' <= c && c <= '9') {
            proof {
                lemma_digits_len(text@, i as int);
            }
            return None;
        }
        let d: u64 = ((c as u32) - ('0' as u32)) as u64;
        assert(text@.take(i + 1).drop_last() =~= text@.take(i as int));
        assert(text@.take(i + 1).last() == c);
        if value > (18446744073709551615 - d) / 10 {
            proof {
                if digits_len(text@) == text@.len() {
                    lemma_all_digits(text@);
                    lemma_digits_value_grows(text@, i + 1);
                }
            }
            return None;
        }
        value = value * 10 + d;
        i += 1;
    }
    proof {
        lemma_digits_len(text@, i as int);
        assert(text@.take(i as int) =~= text@);
    }
    Some(value)
}

/// Reads the whole number that a text starts with, up to `cap`, and
/// whether anything follows its digits.
pub fn read_whole(text: &str, cap: u32) -> (r: (u32, bool))
    ensures
        r.0 == if whole_part(text@) < cap {
            whole_part(text@)
        } else {
            cap as nat
        },
        r.1 == has_more(text@),
{
    let len = text.unicode_len();
    let mut value: u32 = 0;
    let mut i: usize = 0;
    assert(text@.take(0) =~= Seq::empty());
    while i < len
        invariant
            len == text@.len(),
            i <= len,
            forall|j: int| 0 <= j < i ==> is_digit(#[trigger] text@[j]),
            value == if digits_value(text@.take(i as int)) < cap {
                digits_value(text@.take(i as int))
            } else {
                cap as nat
            },
        decreases len - i,
    {
        let c = text.get_char(i);
        if !('0' <= c && c <= '9') {
            proof {
                lemma_digits_len(text@, i as int);
            }
            return (value, true);
        }
        let d: u64 = ((c as u32) - ('0' as u32)) as u64;
        assert(text@.take(i + 1).drop_last() =~= text@.take(i as int));
        assert(text@.take(i + 1).last() == c);
        let next: u64 = (value as u64) * 10 + d;
        value = if next < cap as u64 {
            next as u32
        } else {
            cap
        };
        i += 1;
    }
    proof {
        lemma_digits_len(text@, i as int);
    }
    (value, false)
}

} // verus!
