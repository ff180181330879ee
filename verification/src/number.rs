//! Process identifiers written in decimal.

use vstd::prelude::*;

verus! {

pub open spec fn is_digit(c: char) -> bool {
    '0' <= c <= '9'
}

pub open spec fn all_digits(digits: Seq<char>) -> bool {
    forall|i: int| 0 <= i < digits.len() ==> is_digit(#[trigger] digits[i])
}

/// The number that a row of decimal digits writes.
pub open spec fn decimal_value(digits: Seq<char>) -> int
    decreases digits.len(),
{
    if digits.len() == 0 {
        0
    } else {
        10 * decimal_value(digits.drop_last()) + (digits.last() as int - '0' as int)
    }
}

/// The digits of a number: all of the text, but for one leading plus sign.
pub open spec fn unsigned_part(text: Seq<char>) -> Seq<char> {
    if text.len() > 0 && text[0] == '+' {
        text.skip(1)
    } else {
        text
    }
}

/// The number that a text writes: digits only, at least one, after at most one plus sign, and
/// no more than 32 bits hold.
pub open spec fn parsed_u32(text: Seq<char>) -> Option<u32> {
    let digits = unsigned_part(text);
    if digits.len() > 0 && all_digits(digits) && decimal_value(digits) <= u32::MAX {
        Some(decimal_value(digits) as u32)
    } else {
        None
    }
}

proof fn lemma_prefix_is_no_greater(digits: Seq<char>, k: int)
    requires
        all_digits(digits),
        0 <= k <= digits.len(),
    ensures
        0 <= decimal_value(digits.take(k)) <= decimal_value(digits),
    decreases digits.len(),
{
    if k == digits.len() {
        assert(digits.take(k) =~= digits);
        if k > 0 {
            assert(is_digit(digits[k - 1]));
            lemma_prefix_is_no_greater(digits.drop_last(), k - 1);
        }
    } else {
        assert(is_digit(digits[digits.len() - 1]));
        lemma_prefix_is_no_greater(digits.drop_last(), k);
        assert(digits.drop_last().take(k) =~= digits.take(k));
    }
}

/// Reads a decimal number of at most 32 bits.
pub fn parse_u32(text: &str) -> (number: Option<u32>)
    ensures
        number == parsed_u32(text@),
{
    let ghost digits = unsigned_part(text@);
    let ghost skipped: int = text@.len() - digits.len();
    let mut first: bool = true;
    let mut any: bool = false;
    let mut value: u32 = 0;
    assert(digits.take(0) =~= Seq::empty());
    for c in chars: text.chars()
        invariant
            chars.seq() == text@,
            digits == unsigned_part(text@),
            skipped == text@.len() - digits.len(),
            first == (chars.index() == 0),
            any == (chars.index() > skipped),
            any ==> all_digits(digits.take(chars.index() - skipped)),
            any ==> value == decimal_value(digits.take(chars.index() - skipped)),
            !any ==> value == 0,
    {
        let sign: bool = first && c == '+';
        first = false;
        if !sign {
            let ghost k: int = chars.index() - skipped;
            assert(digits[k] == c);
            if c < '0' || '9' < c {
                assert(!is_digit(digits[k]));
                return None;
            }
            let digit: u32 = c as u32 - '0' as u32;
            let ghost before = digits.take(k);
            let ghost after = digits.take(k + 1);
            assert(after.drop_last() =~= before);
            assert(decimal_value(before) == value);
            assert(decimal_value(after) == 10 * value + digit);
            assert(all_digits(after)) by {
                assert forall|i: int| 0 <= i < after.len() implies is_digit(
                    #[trigger] after[i],
                ) by {
                    if i < k {
                        assert(after[i] == before[i]);
                    }
                }
            }
            let next: Option<u32> = match value.checked_mul(10) {
                Some(tens) => tens.checked_add(digit),
                None => None,
            };
            match next {
                Some(sum) => {
                    value = sum;
                },
                None => {
                    proof {
                        if all_digits(digits) {
                            lemma_prefix_is_no_greater(digits, k + 1);
                        }
                    }
                    return None;
                },
            }
            any = true;
        }
    }
    if any {
        assert(digits.take(digits.len() as int) =~= digits);
        Some(value)
    } else {
        None
    }
}

/// The character of a decimal digit.
pub open spec fn digit_char(digit: int) -> char {
    ('0' as int + digit) as char
}

/// How a number is written in decimal, without leading zeros.
pub open spec fn decimal_text(number: nat) -> Seq<char>
    decreases number,
{
    if number < 10 {
        seq![digit_char(number as int)]
    } else {
        decimal_text(number / 10).push(digit_char((number % 10) as int))
    }
}

proof fn lemma_decimal_text(number: nat)
    ensures
        decimal_text(number).len() > 0,
        all_digits(decimal_text(number)),
        decimal_value(decimal_text(number)) == number,
    decreases number,
{
    let text = decimal_text(number);
    if number < 10 {
        assert(text.drop_last() =~= Seq::empty());
        assert(decimal_value(text.drop_last()) == 0);
        assert(text.last() == digit_char(number as int));
    } else {
        lemma_decimal_text(number / 10);
        let front = decimal_text(number / 10);
        assert(text.drop_last() =~= front);
        assert(text.last() == digit_char((number % 10) as int));
        assert forall|i: int| 0 <= i < text.len() implies is_digit(#[trigger] text[i]) by {
            if i < front.len() {
                assert(is_digit(front[i]));
            }
        }
    }
}

/// The decimal writing of a number of 32 bits writes that number.
pub proof fn lemma_decimal_text_is_read(number: u32)
    ensures
        parsed_u32(decimal_text(number as nat)) == Some(number),
{
    lemma_decimal_text(number as nat);
    assert(is_digit(decimal_text(number as nat)[0]));
}

/// Every number of 32 bits is read back from its decimal writing.
pub proof fn law_numbers_are_read_back(number: u32, text: &str, result: Option<u32>)
    requires
        call_ensures(parse_u32, (text,), result),
        text@ == decimal_text(number as nat),
    ensures
        result == Some(number),
{
    lemma_decimal_text_is_read(number);
}

/// One more digit makes ten times the number and the digit, or nothing where that takes more
/// than 32 bits.
pub proof fn law_one_more_digit(
    shorter: &str,
    longer: &str,
    digit: int,
    before: Option<u32>,
    after: Option<u32>,
)
    requires
        call_ensures(parse_u32, (shorter,), before),
        call_ensures(parse_u32, (longer,), after),
        0 <= digit <= 9,
        longer@ == shorter@.push(('0' as int + digit) as char),
        before is Some,
    ensures
        10 * before->Some_0 + digit <= u32::MAX ==> after == Some(
            (10 * before->Some_0 + digit) as u32,
        ),
        10 * before->Some_0 + digit > u32::MAX ==> after is None,
{
    lemma_digit_appended(shorter@, longer@, digit);
}

/// A single digit is its own number.
pub proof fn law_single_digits(digit: int, text: &str, result: Option<u32>)
    requires
        call_ensures(parse_u32, (text,), result),
        0 <= digit <= 9,
        text@ == seq![('0' as int + digit) as char],
    ensures
        result == Some(digit as u32),
{
    assert(text@.drop_last() =~= Seq::empty());
    assert(decimal_value(text@.drop_last()) == 0);
    assert(decimal_value(text@) == digit);
}

/// Digits that are too many stay too many: a row of digits that is no number is none with
/// another digit behind it.
pub proof fn law_too_many_digits(
    shorter: &str,
    longer: &str,
    digit: int,
    before: Option<u32>,
    after: Option<u32>,
)
    requires
        call_ensures(parse_u32, (shorter,), before),
        call_ensures(parse_u32, (longer,), after),
        0 <= digit <= 9,
        longer@ == shorter@.push(('0' as int + digit) as char),
        shorter@.len() > 0,
        forall|i: int| 0 <= i < shorter@.len() ==> '0' <= #[trigger] shorter@[i] <= '9',
        before is None,
    ensures
        after is None,
{
    assert(all_digits(shorter@));
    assert(is_digit(shorter@[0]));
    lemma_digit_appended(shorter@, longer@, digit);
}

/// A plus sign in front of a number makes no difference.
pub proof fn law_plus_sign(
    text: &str,
    signed: &str,
    plain: Option<u32>,
    result: Option<u32>,
)
    requires
        call_ensures(parse_u32, (text,), plain),
        call_ensures(parse_u32, (signed,), result),
        signed@ == seq!['+'] + text@,
        text@.len() > 0 ==> text@[0] != '+',
    ensures
        result == plain,
{
    assert(signed@.skip(1) =~= text@);
}

/// A text that holds anything but digits, besides a plus sign in front, is no number; nor is
/// an empty text.
pub proof fn law_only_digits(text: &str, k: int, result: Option<u32>)
    requires
        call_ensures(parse_u32, (text,), result),
        text@.len() == 0 || {
            &&& 0 <= k < text@.len()
            &&& text@[k] < '0' || '9' < text@[k]
            &&& k > 0 || text@[k] != '+'
        },
    ensures
        result is None,
{
    if text@.len() > 0 {
        let digits = unsigned_part(text@);
        if text@[0] == '+' {
            assert(digits[k - 1] == text@[k]);
            assert(!is_digit(digits[k - 1]));
        } else {
            assert(!is_digit(digits[k]));
        }
    }
}

proof fn lemma_digit_appended(shorter: Seq<char>, longer: Seq<char>, digit: int)
    requires
        0 <= digit <= 9,
        longer == shorter.push(('0' as int + digit) as char),
        unsigned_part(shorter).len() > 0,
        all_digits(unsigned_part(shorter)),
    ensures
        unsigned_part(longer).len() > 0,
        all_digits(unsigned_part(longer)),
        decimal_value(unsigned_part(longer)) == 10 * decimal_value(unsigned_part(shorter)) + digit,
        decimal_value(unsigned_part(shorter)) >= 0,
{
    let before = unsigned_part(shorter);
    let after = unsigned_part(longer);
    assert(after =~= before.push(('0' as int + digit) as char));
    assert(after.drop_last() =~= before);
    assert forall|i: int| 0 <= i < after.len() implies is_digit(#[trigger] after[i]) by {
        if i < before.len() {
            assert(is_digit(before[i]));
        }
    }
    lemma_prefix_is_no_greater(before, 0);
}

} // verus!
