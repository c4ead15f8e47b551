//! Numbers and words as text.

use vstd::prelude::*;

verus! {

/// Whether a character is a decimal digit.
pub open spec fn is_digit(c: char) -> bool {
    '0' <= c <= '9'
}

/// The number that a sequence of digits stands for.
pub open spec fn decimal_value(digits: Seq<char>) -> nat
    decreases digits.len(),
{
    if digits.len() == 0 {
        0
    } else {
        (decimal_value(digits.drop_last()) * 10 + (digits.last() as nat - '0' as nat)) as nat
    }
}

/// Whether a text is a number without a sign.
pub open spec fn is_digits(text: Seq<char>) -> bool {
    text.len() > 0 && forall|k: int| 0 <= k < text.len() ==> is_digit(#[trigger] text[k])
}

/// A text without a sign in front.
pub open spec fn without_sign(text: Seq<char>, sign: char) -> Seq<char> {
    if text.len() > 0 && text[0] == sign {
        text.skip(1)
    } else {
        text
    }
}

/// The number that a text stands for: digits, with or without a plus sign, and not too large.
pub open spec fn text_as_u32(text: Seq<char>) -> Option<u32> {
    let digits = without_sign(text, '+');
    if is_digits(digits) && decimal_value(digits) <= u32::MAX {
        Some(decimal_value(digits) as u32)
    } else {
        None
    }
}

/// The number that a text stands for: digits, with or without a sign, and not too large.
pub open spec fn text_as_i32(text: Seq<char>) -> Option<i32> {
    if text.len() > 0 && text[0] == '-' {
        let digits = text.skip(1);
        if is_digits(digits) && decimal_value(digits) <= -i32::MIN {
            Some((-(decimal_value(digits) as int)) as i32)
        } else {
            None
        }
    } else {
        let digits = without_sign(text, '+');
        if is_digits(digits) && decimal_value(digits) <= i32::MAX {
            Some(decimal_value(digits) as i32)
        } else {
            None
        }
    }
}

/// The shortest decimal digits of a number.
pub open spec fn decimal_digits(n: nat) -> Seq<char>
    decreases n,
{
    if n < 10 {
        seq![(n + '0' as nat) as char]
    } else {
        decimal_digits(n / 10).push((n % 10 + '0' as nat) as char)
    }
}

/// The decimal text of a number, with a minus sign if it is negative.
pub open spec fn decimal_text(n: int) -> Seq<char> {
    if n < 0 {
        seq!['-'] + decimal_digits((-n) as nat)
    } else {
        decimal_digits(n as nat)
    }
}

/// The value of digits grows with their number.
proof fn lemma_value_grows(digits: Seq<char>, k: int)
    requires
        is_digits(digits),
        0 <= k <= digits.len(),
    ensures
        decimal_value(digits.take(k)) <= decimal_value(digits),
    decreases digits.len() - k,
{
    if k < digits.len() {
        let shorter = digits.take(k);
        let longer = digits.take(k + 1);
        assert(longer.drop_last() =~= shorter);
        assert(is_digit(digits[k]));
        lemma_value_grows(digits, k + 1);
    } else {
        assert(digits.take(k) =~= digits);
    }
}

/// Whether two texts are the same.
pub fn same_text(a: &str, b: &str) -> (same: bool)
    ensures
        same == (a@ == b@),
{
    a.to_owned() == b.to_owned()
}

/// Reads digits from position `from` on, up to a limit.
fn read_digits(text: &str, from: usize, limit: u64) -> (value: Option<u64>)
    requires
        from <= text@.len(),
        limit <= 0x1_0000_0000,
    ensures
        value == ({
            let digits = text@.skip(from as int);
            if is_digits(digits) && decimal_value(digits) <= limit {
                Some(decimal_value(digits) as u64)
            } else {
                None
            }
        }),
{
    let length: usize = text.unicode_len();
    let ghost digits = text@.skip(from as int);
    if from == length {
        return None;
    }
    let mut value: u64 = 0;
    let mut i: usize = from;
    while i < length
        invariant
            from <= i <= length,
            from < length,
            length == text@.len(),
            limit <= 0x1_0000_0000,
            digits == text@.skip(from as int),
            value <= limit,
            value == decimal_value(digits.take(i - from)),
            forall|k: int| 0 <= k < i - from ==> is_digit(#[trigger] digits[k]),
        decreases length - i,
    {
        let c = text.get_char(i);
        assert(c == digits[i - from]);
        if !('0' <= c && c <= '9') {
            assert(!is_digit(digits[i - from]));
            return None;
        }
        let digit: u64 = (c as u32 - '0' as u32) as u64;
        assert(digits.take(i - from + 1).drop_last() =~= digits.take(i - from));
        let next: u64 = value * 10 + digit;
        assert(next == decimal_value(digits.take(i - from + 1)));
        if next > limit {
            proof {
                if is_digits(digits) {
                    lemma_value_grows(digits, i - from + 1);
                }
            }
            return None;
        }
        value = next;
        i += 1;
    }
    assert(digits.take(i - from) =~= digits);
    Some(value)
}

/// Reads a number, as written with or without a plus sign.
pub fn parse_u32(text: &str) -> (number: Option<u32>)
    ensures
        number == text_as_u32(text@),
{
    let signed = text.unicode_len() > 0 && text.get_char(0) == '+';
    assert(!signed ==> text@.skip(0) =~= text@);
    match read_digits(
        text,
        if signed {
            1
        } else {
            0
        },
        0xffff_ffff,
    ) {
        Some(value) => Some(value as u32),
        None => None,
    }
}

/// Reads a number, as written with or without a sign.
pub fn parse_i32(text: &str) -> (number: Option<i32>)
    ensures
        number == text_as_i32(text@),
{
    if text.unicode_len() > 0 && text.get_char(0) == '-' {
        return match read_digits(text, 1, 0x8000_0000) {
            Some(value) => Some((-(value as i64)) as i32),
            None => None,
        };
    }
    let signed = text.unicode_len() > 0 && text.get_char(0) == '+';
    assert(!signed ==> text@.skip(0) =~= text@);
    match read_digits(
        text,
        if signed {
            1
        } else {
            0
        },
        0x7fff_ffff,
    ) {
        Some(value) => Some(value as i32),
        None => None,
    }
}

/// The text of one digit.
fn digit_text(digit: u32) -> (text: &'static str)
    requires
        digit < 10,
    ensures
        text@ == seq![(digit + '0' as nat) as char],
{
    proof {
        reveal_strlit("0");
        reveal_strlit("1");
        reveal_strlit("2");
        reveal_strlit("3");
        reveal_strlit("4");
        reveal_strlit("5");
        reveal_strlit("6");
        reveal_strlit("7");
        reveal_strlit("8");
        reveal_strlit("9");
    }
    let text = match digit {
        0 => "0",
        1 => "1",
        2 => "2",
        3 => "3",
        4 => "4",
        5 => "5",
        6 => "6",
        7 => "7",
        8 => "8",
        _ => "9",
    };
    assert(text@ =~= seq![(digit + '0' as nat) as char]);
    text
}

/// Writes a number in decimal.
pub fn print_u32(n: u32) -> (text: String)
    ensures
        text@ == decimal_text(n as int),
    decreases n,
{
    if n < 10 {
        return digit_text(n).to_owned();
    }
    let mut text = print_u32(n / 10);
    text.append(digit_text(n % 10));
    assert(text@ =~= decimal_digits(n as nat));
    text
}

/// Writes a number in decimal.
pub fn print_i32(n: i32) -> (text: String)
    ensures
        text@ == decimal_text(n as int),
{
    if n < 0 {
        proof {
            reveal_strlit("-");
        }
        let magnitude: u32 = (-(n as i64)) as u32;
        let mut text = "-".to_owned();
        let digits = print_u32(magnitude);
        text.append(digits.as_str());
        assert(text@ =~= decimal_text(n as int));
        return text;
    }
    print_u32(n as u32)
}

/// The digits of a number are digits, and stand for that number.
pub proof fn law_digits_stand_for_their_number(n: nat)
    ensures
        is_digits(decimal_digits(n)),
        decimal_value(decimal_digits(n)) == n,
    decreases n,
{
    reveal_with_fuel(decimal_value, 2);
    if n >= 10 {
        law_digits_stand_for_their_number(n / 10);
        let shorter = decimal_digits(n / 10);
        let digits = decimal_digits(n);
        assert(digits.drop_last() =~= shorter);
        assert forall|k: int| 0 <= k < digits.len() implies is_digit(#[trigger] digits[k]) by {
            if k < shorter.len() {
                assert(digits[k] == shorter[k]);
            }
        }
    } else {
        assert(decimal_digits(n).drop_last() =~= Seq::<char>::empty());
    }
}

/// A number that is written is read back.
pub proof fn law_written_number_is_read_back(n: i32)
    ensures
        text_as_i32(decimal_text(n as int)) == Some(n),
        n >= 0 ==> text_as_u32(decimal_text(n as int)) == Some(n as u32),
{
    if n < 0 {
        law_digits_stand_for_their_number((-n) as nat);
        assert(decimal_text(n as int).skip(1) =~= decimal_digits((-n) as nat));
    } else {
        law_digits_stand_for_their_number(n as nat);
        let digits = decimal_digits(n as nat);
        assert(is_digit(digits[0]));
    }
}

/// A number is read digit by digit, each counting a tenth of the one before it.
pub proof fn law_digits_count_tens(digits: Seq<char>, digit: char)
    requires
        is_digits(digits),
        is_digit(digit),
    ensures
        decimal_value(digits.push(digit)) == 10 * decimal_value(digits) + (digit as nat
            - '0' as nat),
        decimal_value(seq![digit]) == digit as nat - '0' as nat,
        is_digits(digits.push(digit)),
        '0' <= digit && digit <= '9',
{
    assert(digits.push(digit).drop_last() =~= digits);
    assert(seq![digit].drop_last() =~= Seq::empty());
    assert(decimal_value(Seq::<char>::empty()) == 0);
}

/// A sign counts: a plus changes nothing, a minus gives the opposite, and a number that has none of
/// the digits or more than fits is not read.
pub proof fn law_signs_are_read(digits: Seq<char>)
    requires
        is_digits(digits),
        digits[0] != '+',
    ensures
        text_as_u32(seq!['+'] + digits) == text_as_u32(digits),
        decimal_value(digits) <= u32::MAX ==> text_as_u32(digits) == Some(
            decimal_value(digits) as u32,
        ),
        decimal_value(digits) > u32::MAX ==> text_as_u32(digits) is None,
        decimal_value(digits) <= i32::MAX ==> text_as_i32(digits) == Some(
            decimal_value(digits) as i32,
        ) && text_as_i32(seq!['-'] + digits) == Some((-decimal_value(digits)) as i32),
        decimal_value(digits) > i32::MAX ==> text_as_i32(digits) is None,
        decimal_value(digits) > 0x8000_0000 ==> text_as_i32(seq!['-'] + digits) is None,
        text_as_u32(seq!['-'] + digits) is None,
        text_as_u32(Seq::empty()) is None,
        text_as_i32(Seq::empty()) is None,
{
    assert((seq!['+'] + digits).skip(1) =~= digits);
    assert((seq!['-'] + digits).skip(1) =~= digits);
    assert(is_digit(digits[0]));
    assert((seq!['-'] + digits)[0] == '-');
}

} // verus!
