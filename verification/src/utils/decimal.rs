//! Reading unsigned decimal numbers.
use vstd::prelude::*;
use vstd::string::StrSliceExecFns;

verus! {

/// One of the ten ASCII digits.
pub open spec fn is_digit(c: char) -> bool {
    '0' <= c <= '9'
}

/// Every character of `text` is a digit.
pub open spec fn all_digits(text: Seq<char>) -> bool {
    forall|i: int| 0 <= i < text.len() ==> is_digit(#[trigger] text[i])
}

/// The number that a digit stands for.
pub open spec fn digit_of(c: char) -> int {
    c as u32 - '0' as u32
}

/// The number that a sequence of digits stands for in base ten; the empty
/// sequence stands for zero.
pub open spec fn decimal_value(digits: Seq<char>) -> int
    decreases digits.len(),
{
    if digits.len() == 0 {
        0
    } else {
        decimal_value(digits.drop_last()) * 10 + digit_of(digits.last())
    }
}

/// A text without the plus sign that may lead it.
pub open spec fn unsigned_part(text: Seq<char>) -> Seq<char> {
    if text.len() > 0 && text[0] == '+' {
        text.drop_first()
    } else {
        text
    }
}

/// The number that `text` spells: one or more digits, after at most one
/// leading plus sign, whose value fits in 64 bits. Any other text, be it
/// empty, signed with a minus, padded with blanks or too large, spells
/// none.
pub open spec fn parsed_number(text: Seq<char>) -> Option<u64> {
    let digits = unsigned_part(text);
    if digits.len() > 0 && all_digits(digits) && decimal_value(digits) <= u64::MAX {
        Some(decimal_value(digits) as u64)
    } else {
        None
    }
}

/// The value of digits is no smaller than that of any of their prefixes.
pub proof fn lemma_value_grows(digits: Seq<char>, k: int)
    requires
        all_digits(digits),
        0 <= k <= digits.len(),
    ensures
        0 <= decimal_value(digits.subrange(0, k)) <= decimal_value(digits),
    decreases digits.len(),
{
    if k == digits.len() {
        assert(digits.subrange(0, k) =~= digits);
        if digits.len() > 0 {
            assert(is_digit(digits.last()));
            lemma_value_grows(digits.drop_last(), k - 1);
        }
    } else {
        let shorter = digits.drop_last();
        assert(is_digit(digits.last()));
        lemma_value_grows(shorter, k);
        assert(shorter.subrange(0, k) =~= digits.subrange(0, k));
    }
}

/// Reads an unsigned decimal number.
pub fn parse_number(text: &str) -> (r: Option<u64>)
    ensures
        r == parsed_number(text@),
{
    let n = text.unicode_len();
    if n == 0 {
        return None;
    }
    let start: usize = if text.get_char(0) == '+' {
        1
    } else {
        0
    };
    let ghost digits = unsigned_part(text@);
    assert(digits =~= text@.subrange(start as int, n as int));
    if start == n {
        return None;
    }
    let mut value: u64 = 0;
    let mut i: usize = start;
    assert(digits.subrange(0, 0) =~= Seq::<char>::empty());
    while i < n
        invariant
            start <= i <= n,
            n == text@.len(),
            digits == unsigned_part(text@),
            digits == text@.subrange(start as int, n as int),
            all_digits(digits.subrange(0, i - start)),
            decimal_value(digits.subrange(0, i - start)) == value,
        decreases n - i,
    {
        let c = text.get_char(i);
        let ghost read = digits.subrange(0, i - start);
        let ghost longer = digits.subrange(0, i - start + 1);
        assert(longer.drop_last() =~= read);
        assert(longer.last() == c);
        assert(digits[i - start] == c);
        if c < '0' || c > '9' {
            assert(!is_digit(digits[i - start]));
            return None;
        }
        assert(is_digit(c));
        let digit: u64 = (c as u32 - '0' as u32) as u64;
        if value > (u64::MAX - digit) / 10 {
            proof {
                assert(digit_of(c) == digit);
                assert(decimal_value(longer) == value * 10 + digit);
                assert(decimal_value(longer) > u64::MAX);
                if all_digits(digits) {
                    lemma_value_grows(digits, i - start + 1);
                }
            }
            return None;
        }
        value = value * 10 + digit;
        i += 1;
        assert forall|j: int| 0 <= j < longer.len() implies is_digit(#[trigger] longer[j]) by {
            if j < read.len() {
                assert(longer[j] == read[j]);
            }
        }
    }
    assert(digits.subrange(0, n - start) =~= digits);
    Some(value)
}

} // verus!
