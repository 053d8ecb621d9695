//! Unsigned decimal numbers written in ASCII.

use vstd::prelude::*;
use vstd::string::StringExecFns;

verus! {

/// The byte `0`.
pub const DIGIT_ZERO: u8 = 0x30;

/// The byte `9`.
pub const DIGIT_NINE: u8 = 0x39;

/// The byte `+`.
pub const PLUS_SIGN: u8 = 0x2b;

pub open spec fn is_digit(b: u8) -> bool {
    DIGIT_ZERO <= b <= DIGIT_NINE
}

pub open spec fn all_digits(s: Seq<u8>) -> bool {
    forall|i: int| 0 <= i < s.len() ==> is_digit(#[trigger] s[i])
}

/// The number that a run of digits denotes, most significant digit first.
pub open spec fn digits_value(s: Seq<u8>) -> nat
    decreases s.len(),
{
    if s.len() == 0 {
        0
    } else {
        digits_value(s.drop_last()) * 10 + (s.last() - DIGIT_ZERO) as nat
    }
}

/// A numeral without the plus sign that may lead it.
pub open spec fn unsigned_part(s: Seq<u8>) -> Seq<u8> {
    if s.len() > 0 && s[0] == PLUS_SIGN {
        s.skip(1)
    } else {
        s
    }
}

/// Reads a numeral: an optional plus sign, then one or more digits and
/// nothing else, denoting a number that fits in 32 bits. Leading zeros are
/// accepted; an empty string, a lone sign, a minus sign, blanks and
/// numbers of 2^32 and above are not.
pub open spec fn parse_u32(s: Seq<u8>) -> Option<u32> {
    parse_u32_unsigned(unsigned_part(s))
}

/// Reads a numeral that has no sign: one or more digits and nothing else,
/// denoting a number that fits in 32 bits.
pub open spec fn parse_u32_unsigned(digits: Seq<u8>) -> Option<u32> {
    if digits.len() > 0 && all_digits(digits) && digits_value(digits) <= u32::MAX {
        Some(digits_value(digits) as u32)
    } else {
        None
    }
}

/// Appending digits never lowers the number denoted.
pub proof fn lemma_digits_value_grows(s: Seq<u8>, k: int)
    requires
        0 <= k <= s.len(),
        all_digits(s),
    ensures
        digits_value(s.take(k)) <= digits_value(s),
    decreases s.len(),
{
    if k == s.len() {
        assert(s.take(k) == s);
    } else {
        lemma_digits_value_grows(s.drop_last(), k);
        assert(s.drop_last().take(k) == s.take(k));
        assert(is_digit(s.last()));
    }
}

/// Reads the run of digits that occupies `bytes[from..to]`.
fn parse_digits(bytes: &[u8], from: usize, to: usize) -> (number: Option<u32>)
    requires
        from <= to <= bytes@.len(),
    ensures
        number == parse_u32_unsigned(bytes@.subrange(from as int, to as int)),
{
    let ghost digits = bytes@.subrange(from as int, to as int);
    if from == to {
        return None;
    }
    let mut value: u32 = 0;
    let mut i: usize = from;
    while i < to
        invariant
            from <= i <= to <= bytes@.len(),
            digits == bytes@.subrange(from as int, to as int),
            all_digits(digits.take(i - from)),
            value == digits_value(digits.take(i - from)),
        decreases to - i,
    {
        let b: u8 = bytes[i];
        let ghost seen = digits.take(i - from + 1);
        assert(seen.drop_last() == digits.take(i - from));
        assert(seen.last() == b);
        if b < DIGIT_ZERO || b > DIGIT_NINE {
            assert(!is_digit(digits[i - from]));
            return None;
        }
        let wide: u64 = (value as u64) * 10 + ((b - DIGIT_ZERO) as u64);
        if wide > 0xffff_ffff {
            proof {
                if all_digits(digits) {
                    lemma_digits_value_grows(digits, i - from + 1);
                }
            }
            return None;
        }
        value = wide as u32;
        i += 1;
    }
    assert(digits.take(to - from) == digits);
    Some(value)
}

/// Reads the numeral that occupies `bytes[from..to]`.
pub fn parse_number(bytes: &[u8], from: usize, to: usize) -> (number: Option<u32>)
    requires
        from <= to <= bytes@.len(),
    ensures
        number == parse_u32(bytes@.subrange(from as int, to as int)),
{
    let ghost field = bytes@.subrange(from as int, to as int);
    let start: usize = if from < to && bytes[from] == PLUS_SIGN {
        from + 1
    } else {
        from
    };
    assert(bytes@.subrange(start as int, to as int) == unsigned_part(field));
    parse_digits(bytes, start, to)
}

/// The character that shows a digit.
pub open spec fn digit_char(d: nat) -> char {
    if d == 0 {
        '0'
    } else if d == 1 {
        '1'
    } else if d == 2 {
        '2'
    } else if d == 3 {
        '3'
    } else if d == 4 {
        '4'
    } else if d == 5 {
        '5'
    } else if d == 6 {
        '6'
    } else if d == 7 {
        '7'
    } else if d == 8 {
        '8'
    } else {
        '9'
    }
}

/// The decimal numeral of a number: its digits, most significant first,
/// without leading zeros; a single `0` for zero.
pub open spec fn decimal_text(n: nat) -> Seq<char>
    decreases n,
{
    if n < 10 {
        seq![digit_char(n)]
    } else {
        decimal_text(n / 10).push(digit_char(n % 10))
    }
}

/// The decimal numeral of a number that may be negative: a minus sign
/// before the numeral of its magnitude.
pub open spec fn signed_decimal_text(n: int) -> Seq<char> {
    if n < 0 {
        seq!['-'] + decimal_text((-n) as nat)
    } else {
        decimal_text(n as nat)
    }
}

/// The bytes of a text made of ASCII characters.
pub open spec fn ascii_bytes(text: Seq<char>) -> Seq<u8> {
    Seq::new(text.len(), |i: int| text[i] as u8)
}

/// The decimal numeral of a number is a run of digits that denotes it.
pub proof fn lemma_decimal_text_denotes(n: nat)
    ensures
        decimal_text(n).len() >= 1,
        all_digits(ascii_bytes(decimal_text(n))),
        digits_value(ascii_bytes(decimal_text(n))) == n,
    decreases n,
{
    let bytes = ascii_bytes(decimal_text(n));
    if n < 10 {
        assert(bytes.drop_last() == Seq::<u8>::empty());
        assert(digits_value(bytes.drop_last()) == 0);
        assert(is_digit(bytes[0]));
    } else {
        let init = ascii_bytes(decimal_text(n / 10));
        lemma_decimal_text_denotes(n / 10);
        assert(bytes.drop_last() == init);
        assert(bytes.last() == DIGIT_ZERO + n % 10);
        assert forall|i: int| 0 <= i < bytes.len() implies is_digit(#[trigger] bytes[i]) by {
            if i < init.len() {
                assert(bytes[i] == init[i]);
            }
        }
    }
}

/// Writing and reading are inverse: the decimal numeral of a number that
/// fits in 32 bits reads back as that number.
pub proof fn lemma_decimal_text_reads_back(n: nat)
    requires
        n <= u32::MAX,
    ensures
        parse_u32(ascii_bytes(decimal_text(n))) == Some(n as u32),
{
    lemma_decimal_text_denotes(n);
    let bytes = ascii_bytes(decimal_text(n));
    assert(is_digit(bytes[0]));
    assert(unsigned_part(bytes) == bytes);
}

/// The text of one digit.
fn digit_str(d: u32) -> (text: &'static str)
    requires
        d < 10,
    ensures
        text@ == seq![digit_char(d as nat)],
{
    proof {
        reveal_strlit("0");
        reveal_strlit("1");
        reveal_strlit("2");
        reveal_strlit("3");
        reveal_strlit("4");
        reveal_strlit("5");
        reveal_strlit("6");
        reveal_strlit("7");
        reveal_strlit("8");
        reveal_strlit("9");
    }
    let text = if d == 0 {
        "0"
    } else if d == 1 {
        "1"
    } else if d == 2 {
        "2"
    } else if d == 3 {
        "3"
    } else if d == 4 {
        "4"
    } else if d == 5 {
        "5"
    } else if d == 6 {
        "6"
    } else if d == 7 {
        "7"
    } else if d == 8 {
        "8"
    } else {
        "9"
    };
    assert(text@ =~= seq![digit_char(d as nat)]);
    text
}

/// Writes a number as its decimal numeral.
pub fn render_u32(n: u32) -> (text: String)
    ensures
        text@ == decimal_text(n as nat),
    decreases n,
{
    if n < 10 {
        digit_str(n).to_owned()
    } else {
        let mut text = render_u32(n / 10);
        text.append(digit_str(n % 10));
        assert(text@ =~= decimal_text(n as nat));
        text
    }
}

/// Writes a number that may be negative as its decimal numeral.
pub fn render_i32(n: i32) -> (text: String)
    ensures
        text@ == signed_decimal_text(n as int),
{
    if n < 0 {
        let magnitude: u32 = (-(n as i64)) as u32;
        let mut text = "-".to_owned();
        proof {
            reveal_strlit("-");
        }
        let digits = render_u32(magnitude);
        text.append(digits.as_str());
        assert(text@ =~= signed_decimal_text(n as int));
        text
    } else {
        render_u32(n as u32)
    }
}

} // verus!
