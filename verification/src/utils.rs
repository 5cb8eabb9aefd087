//! Small verified utilities: hexadecimal address parsing and decimal text
//! for the descriptions of findings.

use vstd::prelude::*;
use vstd::string::{StrSliceExecFns, StringExecFns};

use crate::errors::ConfigurationError;
use crate::models::Address;

verus! {

/// Sixteen to the power `n`.
pub open spec fn pow16(n: nat) -> int
    decreases n,
{
    if n == 0 {
        1
    } else {
        16 * pow16((n - 1) as nat)
    }
}

pub proof fn lemma_pow16_values()
    ensures
        pow16(8) == 0x100000000,
        pow16(32) == 0x100000000000000000000000000000000,
{
    reveal_with_fuel(pow16, 33);
}

/// Value of a hexadecimal digit, or `-1` for any other character.
pub open spec fn hex_digit_value(c: char) -> int {
    let code = c as int;
    if 48 <= code <= 57 {
        code - 48
    } else if 97 <= code <= 102 {
        code - 87
    } else if 65 <= code <= 70 {
        code - 55
    } else {
        -1
    }
}

/// Whether a character is a hexadecimal digit.
pub open spec fn is_hex_digit(c: char) -> bool {
    hex_digit_value(c) >= 0
}

/// Number denoted by hexadecimal text, most significant digit first.
pub open spec fn hex_value(s: Seq<char>) -> int
    decreases s.len(),
{
    if s.len() == 0 {
        0
    } else {
        hex_value(s.drop_last()) * 16 + hex_digit_value(s.last())
    }
}

/// Hexadecimal text denotes a value below sixteen to its length.
pub proof fn lemma_hex_value_bounds(s: Seq<char>)
    requires
        forall|i: int| 0 <= i < s.len() ==> is_hex_digit(#[trigger] s[i]),
    ensures
        0 <= hex_value(s) < pow16(s.len()),
    decreases s.len(),
{
    if s.len() > 0 {
        lemma_hex_value_bounds(s.drop_last());
        assert(is_hex_digit(s.last()));
        assert(hex_digit_value(s.last()) <= 15);
    }
}

/// The text with a leading `0x` or `0X` removed, if present.
pub open spec fn strip_hex_prefix(s: Seq<char>) -> Seq<char> {
    if s.len() >= 2 && s[0] == '0' && (s[1] == 'x' || s[1] == 'X') {
        s.skip(2)
    } else {
        s
    }
}

/// Whether the text denotes an address: an optional `0x` prefix followed by
/// exactly forty hexadecimal digits.
pub open spec fn valid_address_text(s: Seq<char>) -> bool {
    let body = strip_hex_prefix(s);
    body.len() == 40 && forall|i: int| 0 <= i < 40 ==> is_hex_digit(#[trigger] body[i])
}

/// The address denoted by valid address text: the first eight digits give
/// the upper bits, the remaining thirty-two the lower.
pub open spec fn address_of_text(s: Seq<char>) -> Address {
    let body = strip_hex_prefix(s);
    Address { hi: hex_value(body.take(8)) as u32, lo: hex_value(body.skip(8)) as u128 }
}

/// Value of one hexadecimal digit character.
fn hex_digit_u8(c: char) -> (d: u8)
    requires
        is_hex_digit(c),
    ensures
        d as int == hex_digit_value(c),
{
    let code = c as u32;
    if 48 <= code && code <= 57 {
        (code - 48) as u8
    } else if 97 <= code && code <= 102 {
        (code - 87) as u8
    } else {
        (code - 55) as u8
    }
}

/// Parses hexadecimal address text, with or without a `0x` prefix, into an
/// [`Address`]; anything else is a `ConfigurationError`.
pub fn parse_address(s: &str) -> (r: Result<Address, ConfigurationError>)
    ensures
        r is Ok <==> valid_address_text(s@),
        r matches Ok(a) ==> a == address_of_text(s@),
        r is Err ==> r == Err::<Address, ConfigurationError>(ConfigurationError::InvalidAddress),
{
    let len = s.unicode_len();
    let off: usize = if len >= 2 && s.get_char(0) == '0' && (s.get_char(1) == 'x' || s.get_char(1)
        == 'X') {
        2
    } else {
        0
    };
    let ghost body = strip_hex_prefix(s@);
    proof {
        assert(body =~= s@.skip(off as int));
    }
    if len - off != 40 {
        return Err(ConfigurationError::InvalidAddress);
    }
    let mut i: usize = 0;
    while i < 40
        invariant
            i <= 40,
            off + 40 == len,
            len == s@.len(),
            body == s@.skip(off as int),
            body.len() == 40,
            forall|j: int| 0 <= j < i ==> is_hex_digit(#[trigger] body[j]),
        decreases 40 - i,
    {
        let c = s.get_char(off + i);
        let code = c as u32;
        if !((48 <= code && code <= 57) || (97 <= code && code <= 102) || (65 <= code && code
            <= 70)) {
            proof {
                assert(!is_hex_digit(body[i as int]));
            }
            return Err(ConfigurationError::InvalidAddress);
        }
        i = i + 1;
    }
    proof {
        lemma_pow16_values();
    }
    let mut hi_acc: u32 = 0;
    let mut k: usize = 0;
    while k < 8
        invariant
            k <= 8,
            off + 40 == len,
            len == s@.len(),
            body == s@.skip(off as int),
            body.len() == 40,
            forall|j: int| 0 <= j < 40 ==> is_hex_digit(#[trigger] body[j]),
            hi_acc as int == hex_value(body.take(k as int)),
            pow16(8) == 0x100000000,
        decreases 8 - k,
    {
        let c = s.get_char(off + k);
        proof {
            assert(body.take(k as int + 1).drop_last() =~= body.take(k as int));
            assert(body.take(k as int + 1).last() == body[k as int]);
            lemma_hex_value_bounds(body.take(k as int));
            lemma_pow16_increases(k as nat, 7);
        }
        let d = hex_digit_u8(c);
        hi_acc = hi_acc * 16 + d as u32;
        k = k + 1;
    }
    let mut lo_acc: u128 = 0;
    let mut m: usize = 8;
    while m < 40
        invariant
            8 <= m <= 40,
            off + 40 == len,
            len == s@.len(),
            body == s@.skip(off as int),
            body.len() == 40,
            forall|j: int| 0 <= j < 40 ==> is_hex_digit(#[trigger] body[j]),
            lo_acc as int == hex_value(body.subrange(8, m as int)),
            pow16(32) == 0x100000000000000000000000000000000,
        decreases 40 - m,
    {
        let c = s.get_char(off + m);
        proof {
            assert(body.subrange(8, m as int + 1).drop_last() =~= body.subrange(8, m as int));
            assert(body.subrange(8, m as int + 1).last() == body[m as int]);
            assert(forall|j: int|
                0 <= j < m - 8 ==> body.subrange(8, m as int)[j] == body[j + 8]);
            lemma_hex_value_bounds(body.subrange(8, m as int));
            lemma_pow16_increases((m - 8) as nat, 31);
        }
        let d = hex_digit_u8(c);
        lo_acc = lo_acc * 16 + d as u128;
        m = m + 1;
    }
    proof {
        assert(body.take(8) =~= body.take(8));
        assert(body.subrange(8, 40) =~= body.skip(8));
        lemma_hex_value_bounds(body.take(8));
        lemma_hex_value_bounds(body.skip(8));
    }
    Ok(Address { hi: hi_acc, lo: lo_acc })
}

pub proof fn lemma_pow16_increases(a: nat, b: nat)
    requires
        a <= b,
    ensures
        pow16(a) <= pow16(b),
    decreases b,
{
    if a < b {
        lemma_pow16_increases(a, (b - 1) as nat);
        lemma_pow16_pos((b - 1) as nat);
    }
}

pub proof fn lemma_pow16_pos(n: nat)
    ensures
        pow16(n) >= 1,
    decreases n,
{
    if n > 0 {
        lemma_pow16_pos((n - 1) as nat);
    }
}

/// The character of one decimal digit.
pub open spec fn digit_char(d: int) -> char {
    if d == 0 {
        '0'
    } else if d == 1 {
        '1'
    } else if d == 2 {
        '2'
    } else if d == 3 {
        '3'
    } else if d == 4 {
        '4'
    } else if d == 5 {
        '5'
    } else if d == 6 {
        '6'
    } else if d == 7 {
        '7'
    } else if d == 8 {
        '8'
    } else {
        '9'
    }
}

/// Decimal digits of a non-negative number, most significant first.
pub open spec fn decimal_digits(n: int) -> Seq<char>
    recommends
        n >= 0,
    decreases n,
{
    if n < 10 {
        seq![digit_char(n)]
    } else {
        decimal_digits(n / 10).push(digit_char(n % 10))
    }
}

/// Text of a number of hundredths, as a whole part, a point, and two
/// fractional digits.
pub open spec fn two_decimal_chars(h: int) -> Seq<char>
    recommends
        h >= 0,
{
    decimal_digits(h / 100) + seq!['.', digit_char((h / 10) % 10), digit_char(h % 10)]
}

/// Text of a micros quantity read as a percentage, rounded to two decimal
/// places: `900_000` micros is `90.00%`.
pub open spec fn percent_chars(v: int) -> Seq<char>
    recommends
        v >= 0,
{
    two_decimal_chars((v + 50) / 100) + seq!['%']
}

/// Text of a micros quantity rounded to two decimal places: `1_650_000`
/// micros is `1.65`.
pub open spec fn unit_chars(v: int) -> Seq<char>
    recommends
        v >= 0,
{
    two_decimal_chars((v + 5000) / 10000)
}

/// The character of one decimal digit, as a string.
fn digit_str(d: u8) -> (s: &'static str)
    requires
        d < 10,
    ensures
        s@.len() == 1,
        s@[0] == digit_char(d as int),
{
    proof {
        reveal_strlit("0");
        reveal_strlit("1");
        reveal_strlit("2");
        reveal_strlit("3");
        reveal_strlit("4");
        reveal_strlit("5");
        reveal_strlit("6");
        reveal_strlit("7");
        reveal_strlit("8");
        reveal_strlit("9");
    }
    match d {
        0 => "0",
        1 => "1",
        2 => "2",
        3 => "3",
        4 => "4",
        5 => "5",
        6 => "6",
        7 => "7",
        8 => "8",
        _ => "9",
    }
}

/// Decimal text of a number.
pub fn decimal_string(n: u128) -> (s: String)
    ensures
        s@ == decimal_digits(n as int),
    decreases n,
{
    if n < 10 {
        let s = String::from_str(digit_str(n as u8));
        proof {
            assert(s@ =~= decimal_digits(n as int));
        }
        s
    } else {
        let mut s = decimal_string(n / 10);
        s.append(digit_str((n % 10) as u8));
        proof {
            assert(s@ =~= decimal_digits(n as int));
        }
        s
    }
}

/// Text of a number of hundredths with two decimal places.
pub fn two_decimal_string(h: u128) -> (s: String)
    ensures
        s@ == two_decimal_chars(h as int),
{
    proof {
        reveal_strlit(".");
    }
    let mut s = decimal_string(h / 100);
    s.append(".");
    s.append(digit_str(((h / 10) % 10) as u8));
    s.append(digit_str((h % 10) as u8));
    proof {
        assert(s@ =~= two_decimal_chars(h as int));
    }
    s
}

/// Text of a micros quantity read as a percentage.
pub fn percent_string(v: u128) -> (s: String)
    requires
        v + 50 <= u128::MAX,
    ensures
        s@ == percent_chars(v as int),
{
    proof {
        reveal_strlit("%");
    }
    let mut s = two_decimal_string((v + 50) / 100);
    s.append("%");
    proof {
        assert(s@ =~= percent_chars(v as int));
    }
    s
}

/// Text of a micros quantity with two decimal places.
pub fn unit_string(v: u128) -> (s: String)
    requires
        v + 5000 <= u128::MAX,
    ensures
        s@ == unit_chars(v as int),
{
    two_decimal_string((v + 5000) / 10000)
}

} // verus!
