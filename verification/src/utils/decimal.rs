//! Numbers as text.

use vstd::prelude::*;

verus! {

/// Character of a digit from 0 to 9.
pub open spec fn digit_char(digit: nat) -> char {
    (digit + 48) as char
}

/// Is the character a digit from 0 to 9.
pub open spec fn is_digit(c: char) -> bool {
    '0' <= c <= '9'
}

/// Number that a digit character stands for.
pub open spec fn digit_value(c: char) -> nat {
    (c as nat - 48) as nat
}

/// Decimal digits of `value` without leading zeros.
pub open spec fn decimal_text(value: nat) -> Seq<char>
    decreases value,
{
    if value < 10 {
        seq![digit_char(value)]
    } else {
        decimal_text(value / 10).push(digit_char(value % 10))
    }
}

/// Number that decimal digits stand for.
pub open spec fn decimal_value(digits: Seq<char>) -> nat
    decreases digits.len(),
{
    if digits.len() == 0 {
        0
    } else {
        10 * decimal_value(digits.drop_last()) + digit_value(digits.last())
    }
}

/// `text` without a plus sign at the start.
pub open spec fn without_plus(text: Seq<char>) -> Seq<char> {
    if text.len() > 0 && text[0] == '+' {
        text.skip(1)
    } else {
        text
    }
}

/// Number that `text` stands for: decimal digits, with or without a plus sign
/// before them, of a number which fits in 64 bits.
pub open spec fn parsed(text: Seq<char>) -> Option<u64> {
    let digits = without_plus(text);
    if digits.len() > 0 && (forall|i: int| 0 <= i < digits.len() ==> is_digit(#[trigger] digits[i]))
        && decimal_value(digits) <= u64::MAX {
        Some(decimal_value(digits) as u64)
    } else {
        None
    }
}

/// A digit as text.
fn digit_str(digit: u64) -> (text: &'static str)
    requires
        digit < 10,
    ensures
        text@ == seq![digit_char(digit as nat)],
{
    proof {
        reveal_strlit("0");
        reveal_strlit("1");
        reveal_strlit("2");
        reveal_strlit("3");
        reveal_strlit("4");
        reveal_strlit("5");
        reveal_strlit("6");
        reveal_strlit("7");
        reveal_strlit("8");
        reveal_strlit("9");
    }
    let text: &'static str = match digit {
        0 => "0",
        1 => "1",
        2 => "2",
        3 => "3",
        4 => "4",
        5 => "5",
        6 => "6",
        7 => "7",
        8 => "8",
        _ => "9",
    };
    assert(text@ =~= seq![digit_char(digit as nat)]);
    text
}

/// Decimal digits of `value`.
pub fn u64_to_string(value: u64) -> (text: String)
    ensures
        text@ == decimal_text(value as nat),
    decreases value,
{
    if value < 10 {
        digit_str(value).to_owned()
    } else {
        let mut text = u64_to_string(value / 10);
        text.append(digit_str(value % 10));
        assert(text@ =~= decimal_text(value as nat));
        text
    }
}

/// More digits do not make a smaller number.
proof fn lemma_prefix_value(digits: Seq<char>, len: int)
    requires
        0 <= len <= digits.len(),
    ensures
        decimal_value(digits.take(len)) <= decimal_value(digits),
    decreases digits.len(),
{
    if len == digits.len() {
        assert(digits.take(len) =~= digits);
    } else {
        lemma_prefix_value(digits.drop_last(), len);
        assert(digits.drop_last().take(len) =~= digits.take(len));
    }
}

/// Number that `text` stands for.
pub fn parse_u64(text: &str) -> (value: Option<u64>)
    ensures
        value == parsed(text@),
{
    let len: usize = text.unicode_len();
    let mut i: usize = if len > 0 && text.get_char(0) == '+' {
        1
    } else {
        0
    };
    let ghost start: int = i as int;
    let ghost digits = without_plus(text@);
    assert(digits =~= text@.skip(start));
    if i == len {
        return None;
    }
    let mut value: u64 = 0;
    assert(digits.take(0) =~= Seq::<char>::empty());
    while i < len
        invariant
            0 <= start <= i <= len,
            len == text@.len(),
            start < len,
            digits == without_plus(text@),
            digits == text@.skip(start),
            forall|j: int| 0 <= j < i - start ==> is_digit(#[trigger] digits[j]),
            value == decimal_value(digits.take(i - start)),
        decreases len - i,
    {
        let c: char = text.get_char(i);
        assert(c == digits[i - start]);
        if !('0' <= c && c <= '9') {
            return None;
        }
        let digit: u64 = (c as u32 - 48) as u64;
        proof {
            let next = digits.take(i - start + 1);
            assert(next.drop_last() =~= digits.take(i - start));
            assert(next.last() == c);
            lemma_prefix_value(digits, i - start + 1);
        }
        if value > (u64::MAX - digit) / 10 {
            return None;
        }
        value = 10 * value + digit;
        i += 1;
    }
    assert(digits.take(len - start) =~= digits);
    Some(value)
}

/// Parsing gives back the number which was written.
pub proof fn law_number_is_read_as_written(value: nat)
    ensures
        decimal_value(decimal_text(value)) == value,
        decimal_text(value).len() > 0,
        forall|i: int|
            0 <= i < decimal_text(value).len() ==> is_digit(#[trigger] decimal_text(value)[i]),
        value <= u64::MAX ==> parsed(decimal_text(value)) == Some(value as u64),
    decreases value,
{
    if value < 10 {
        assert(decimal_text(value).drop_last() =~= Seq::<char>::empty());
        assert(decimal_value(Seq::<char>::empty()) == 0);
    } else {
        law_number_is_read_as_written(value / 10);
        assert(decimal_text(value).drop_last() =~= decimal_text(value / 10));
    }
    assert(decimal_text(value)[0] != '+') by {
        assert(is_digit(decimal_text(value)[0]));
    }
}

/// Text is read digit by digit: one more digit makes the number ten times as large and
/// adds the digit, as long as the number fits in 64 bits. With any other character the
/// text is no number, and what is no number does not become one.
pub proof fn law_text_is_read_digit_by_digit(text: Seq<char>, c: char)
    requires
        text.len() > 0,
        text != seq!['+'],
    ensures
        ({
            let digit = c as int - '0' as int;
            parsed(text.push(c)) == match parsed(text) {
                Some(value) => if '0' <= c <= '9' && 10 * value + digit <= u64::MAX {
                    Some((10 * value + digit) as u64)
                } else {
                    None
                },
                None => None,
            }
        }),
{
    let digits = without_plus(text);
    let more = without_plus(text.push(c));
    assert(more =~= digits.push(c));
    assert(more.drop_last() =~= digits);
    assert(more.last() == c);
    assert(digits.len() > 0) by {
        if digits.len() == 0 {
            assert(text =~= seq!['+']);
        }
    }
    if forall|i: int| 0 <= i < more.len() ==> is_digit(#[trigger] more[i]) {
        assert forall|i: int| 0 <= i < digits.len() implies is_digit(#[trigger] digits[i]) by {
            assert(more[i] == digits[i]);
        }
        assert(is_digit(more[digits.len() as int]));
    } else if is_digit(c) {
        let i = choose|i: int| 0 <= i < more.len() && !is_digit(#[trigger] more[i]);
        assert(digits[i] == more[i]);
    }
}

/// A single character is a number if it is a digit, with or without a plus sign before
/// it. Nothing and a plus sign alone are no numbers.
pub proof fn law_digit_is_a_number(c: char)
    ensures
        parsed(Seq::empty()) is None,
        parsed(seq!['+']) is None,
        parsed(seq![c]) == if '0' <= c <= '9' {
            Some((c as int - '0' as int) as u64)
        } else {
            None
        },
        parsed(seq!['+', c]) == if '0' <= c <= '9' {
            Some((c as int - '0' as int) as u64)
        } else {
            None
        },
{
    assert(without_plus(seq!['+']) =~= Seq::<char>::empty());
    assert(without_plus(seq!['+', c]) =~= seq![c]);
    assert(seq![c].drop_last() =~= Seq::<char>::empty());
    assert(decimal_value(Seq::<char>::empty()) == 0);
    if c != '+' {
        assert(without_plus(seq![c]) == seq![c]);
    } else {
        assert(seq![c] =~= seq!['+']);
    }
    assert(seq![c][0] == c);
    if is_digit(c) {
        assert(decimal_value(seq![c]) == digit_value(c));
    }
}

/// A number is written digit by digit, and it has no leading zeros.
pub proof fn law_number_is_written_digit_by_digit(value: nat, digit: nat)
    requires
        digit < 10,
    ensures
        decimal_text(digit).len() == 1,
        decimal_text(digit)[0] as int == '0' as int + digit,
        value > 0 ==> decimal_text(10 * value + digit) == decimal_text(value)
            + decimal_text(digit),
        value > 0 ==> decimal_text(value)[0] != '0',
    decreases value,
{
    if value > 0 {
        assert((10 * value + digit) / 10 == value);
        assert((10 * value + digit) % 10 == digit);
        assert(decimal_text(10 * value + digit) =~= decimal_text(value) + decimal_text(digit));
        if value >= 10 {
            law_number_is_written_digit_by_digit(value / 10, 0);
            law_number_is_read_as_written(value / 10);
        }
    }
}

} // verus!
