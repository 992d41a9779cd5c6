//! Colors of four 8-bit channels, written as `#rrggbbaa`.

use vstd::prelude::*;
use vstd::string::StrSliceExecFns;
use crate::text::ascii_lowercase;

verus! {

/// Why a text is not a color.
#[derive(Clone, Copy, Debug, PartialEq, Eq, Structural)]
pub enum FormatError {
    /// After an optional leading `#` the text has neither 6 nor 8 characters.
    WrongLength,
    /// The text has the right length, but one of its characters is no
    /// hexadecimal digit.
    NotHexadecimal,
}

/// A color: red, green, blue, and alpha (255 is opaque).
#[derive(Clone, Copy, Debug, PartialEq, Eq, Structural)]
pub struct Color {
    pub r: u8,
    pub g: u8,
    pub b: u8,
    pub a: u8,
}

/// Whether `c` is one of `0`-`9`, `a`-`f`, `A`-`F`.
pub open spec fn is_hex_digit(c: char) -> bool {
    ('0' <= c && c <= '9') || ('a' <= c && c <= 'f') || ('A' <= c && c <= 'F')
}

/// The number, 0 to 15, that the hexadecimal digit `c` stands for.
pub open spec fn hex_value(c: char) -> int {
    if '0' <= c && c <= '9' {
        c as int - '0' as int
    } else if 'a' <= c && c <= 'f' {
        c as int - 'a' as int + 10
    } else {
        c as int - 'A' as int + 10
    }
}

/// The lower-case hexadecimal digit for `v`, 0 to 15.
pub open spec fn hex_digit(v: int) -> char {
    if v < 10 {
        ('0' as int + v) as char
    } else {
        ('a' as int + v - 10) as char
    }
}

/// The byte that two hexadecimal digits stand for, the high one first.
pub open spec fn hex_pair(hi: char, lo: char) -> u8 {
    (hex_value(hi) * 16 + hex_value(lo)) as u8
}

/// Whether every character of `digits` is a hexadecimal digit.
pub open spec fn all_hex(digits: Seq<char>) -> bool {
    forall|i: int| 0 <= i < digits.len() ==> is_hex_digit(#[trigger] digits[i])
}

/// `text` without its first character, if that is `#`.
pub open spec fn strip_hash(text: Seq<char>) -> Seq<char> {
    if text.len() > 0 && text[0] == '#' {
        text.subrange(1, text.len() as int)
    } else {
        text
    }
}

/// The color that `digits` stand for: three or four bytes of two hexadecimal
/// digits each, alpha being 255 where only three are given.
pub open spec fn parse_digits(digits: Seq<char>) -> Result<Color, FormatError> {
    if digits.len() != 6 && digits.len() != 8 {
        Err(FormatError::WrongLength)
    } else if !all_hex(digits) {
        Err(FormatError::NotHexadecimal)
    } else {
        Ok(
            Color {
                r: hex_pair(digits[0], digits[1]),
                g: hex_pair(digits[2], digits[3]),
                b: hex_pair(digits[4], digits[5]),
                a: if digits.len() == 8 {
                    hex_pair(digits[6], digits[7])
                } else {
                    255u8
                },
            },
        )
    }
}

/// What `text` means as a color.
pub open spec fn parse(text: Seq<char>) -> Result<Color, FormatError> {
    parse_digits(strip_hash(text))
}

/// The two lower-case hexadecimal digits of a byte.
pub open spec fn format_byte(v: u8) -> Seq<char> {
    seq![hex_digit(v as int / 16), hex_digit(v as int % 16)]
}

/// The canonical text of a color: `#`, then red, green, blue and alpha as two
/// lower-case hexadecimal digits each.
pub open spec fn format(color: Color) -> Seq<char> {
    seq!['#'] + format_byte(color.r) + format_byte(color.g) + format_byte(color.b) + format_byte(
        color.a,
    )
}

impl FormatError {
    /// The text shown to the user for this error.
    pub fn message(&self) -> (text: String)
        ensures
            text@ == (match *self {
                FormatError::WrongLength => "Hex color must be axactly 8 characters long, e.g. 00aaccff"@,
                FormatError::NotHexadecimal => "All chars must be hexadecimal, e.g. 00aaccff"@,
            }),
    {
        match self {
            FormatError::WrongLength => "Hex color must be axactly 8 characters long, e.g. 00aaccff".to_owned(),
            FormatError::NotHexadecimal => "All chars must be hexadecimal, e.g. 00aaccff".to_owned(),
        }
    }
}

/// The value of one hexadecimal digit, or `None` for any other character.
fn digit_value(c: char) -> (v: Option<u8>)
    ensures
        v is Some <==> is_hex_digit(c),
        v matches Some(n) ==> n as int == hex_value(c) && n < 16,
{
    let code: u32 = c as u32;
    if 48 <= code && code <= 57 {
        Some((code - 48) as u8)
    } else if 97 <= code && code <= 102 {
        Some((code - 87) as u8)
    } else if 65 <= code && code <= 70 {
        Some((code - 55) as u8)
    } else {
        None
    }
}

/// The lower-case hexadecimal digit for a number below 16.
fn digit_char(v: u8) -> (c: char)
    requires
        v < 16,
    ensures
        c == hex_digit(v as int),
{
    if v < 10 {
        (48u8 + v) as char
    } else {
        (87u8 + v) as char
    }
}

/// Appends the two hexadecimal digits of `v` to `out`.
fn push_byte(out: &mut String, v: u8)
    ensures
        final(out)@ == old(out)@ + format_byte(v),
{
    out.push(digit_char(v / 16));
    out.push(digit_char(v % 16));
    assert(out@ =~= old(out)@ + format_byte(v));
}

impl Color {
    /// A color from its four channels.
    pub fn new(r: u8, g: u8, b: u8, a: u8) -> (color: Color)
        ensures
            color == (Color { r, g, b, a }),
    {
        Color { r, g, b, a }
    }

    /// Reads a color from `#rrggbb`, `#rrggbbaa`, or either without the `#`.
    /// Digits may be upper or lower case. Without alpha the color is opaque.
    pub fn from_str(s: &str) -> (res: Result<Color, FormatError>)
        ensures
            res == parse(s@),
    {
        let n: usize = s.unicode_len();
        let start: usize = if n > 0 && s.get_char(0) == '#' {
            1
        } else {
            0
        };
        let len: usize = n - start;
        let ghost digits = strip_hash(s@);
        if len != 6 && len != 8 {
            return Err(FormatError::WrongLength);
        }
        let mut values: Vec<u8> = Vec::new();
        let mut i: usize = 0;
        while i < len
            invariant
                n == s@.len(),
                start <= 1,
                len == n - start,
                len == 6 || len == 8,
                digits == strip_hash(s@),
                digits.len() == len,
                forall|j: int| 0 <= j < len ==> digits[j] == s@[start + j],
                i <= len,
                values@.len() == i,
                forall|j: int|
                    0 <= j < i ==> is_hex_digit(#[trigger] digits[j]) && values@[j] as int
                        == hex_value(digits[j]) && values@[j] < 16,
            decreases len - i,
        {
            let c: char = s.get_char(start + i);
            assert(c == digits[i as int]);
            match digit_value(c) {
                None => {
                    assert(!is_hex_digit(digits[i as int]));
                    return Err(FormatError::NotHexadecimal);
                },
                Some(v) => {
                    values.push(v);
                },
            }
            i += 1;
        }
        let r: u8 = values[0] * 16 + values[1];
        let g: u8 = values[2] * 16 + values[3];
        let b: u8 = values[4] * 16 + values[5];
        let a: u8 = if len == 8 {
            values[6] * 16 + values[7]
        } else {
            255
        };
        Ok(Color { r, g, b, a })
    }

    /// Writes the color as `#rrggbbaa`, in lower case.
    pub fn to_string(&self) -> (text: String)
        ensures
            text@ == format(*self),
    {
        let mut out = String::new();
        out.push('#');
        push_byte(&mut out, self.r);
        push_byte(&mut out, self.g);
        push_byte(&mut out, self.b);
        push_byte(&mut out, self.a);
        assert(out@ =~= format(*self));
        out
    }
}

impl Default for Color {
    /// Opaque black.
    fn default() -> (color: Color)
        ensures
            color == (Color { r: 0, g: 0, b: 0, a: 255 }),
    {
        Color { r: 0, g: 0, b: 0, a: 255 }
    }
}

/// A hexadecimal digit, read and written again, is itself in lower case.
proof fn lemma_digit_roundtrip(c: char)
    requires
        is_hex_digit(c),
    ensures
        0 <= hex_value(c) < 16,
        hex_digit(hex_value(c)) == crate::text::ascii_lower(c),
{
}

/// A number below 16, written and read again, is itself.
proof fn lemma_value_roundtrip(v: int)
    requires
        0 <= v < 16,
    ensures
        is_hex_digit(hex_digit(v)),
        hex_value(hex_digit(v)) == v,
{
}

/// Two hexadecimal digits, read as a byte and written again, are themselves
/// in lower case.
proof fn lemma_pair_roundtrip(hi: char, lo: char)
    requires
        is_hex_digit(hi),
        is_hex_digit(lo),
    ensures
        format_byte(hex_pair(hi, lo)) == seq![
            crate::text::ascii_lower(hi),
            crate::text::ascii_lower(lo),
        ],
{
    lemma_digit_roundtrip(hi);
    lemma_digit_roundtrip(lo);
    let v = hex_value(hi) * 16 + hex_value(lo);
    assert(0 <= v < 256);
    assert(v / 16 == hex_value(hi) && v % 16 == hex_value(lo));
}

/// A byte, written as two digits and read again, is itself.
proof fn lemma_byte_roundtrip(v: u8)
    ensures
        is_hex_digit(format_byte(v)[0]),
        is_hex_digit(format_byte(v)[1]),
        hex_pair(format_byte(v)[0], format_byte(v)[1]) == v,
{
    let hi = v as int / 16;
    let lo = v as int % 16;
    lemma_value_roundtrip(hi);
    lemma_value_roundtrip(lo);
    assert(hi * 16 + lo == v as int);
}

/// Reading the text of a color gives the color back.
pub proof fn lemma_parse_format(color: Color)
    ensures
        parse(format(color)) == Ok::<Color, FormatError>(color),
{
    let text = format(color);
    let digits = strip_hash(text);
    lemma_byte_roundtrip(color.r);
    lemma_byte_roundtrip(color.g);
    lemma_byte_roundtrip(color.b);
    lemma_byte_roundtrip(color.a);
    assert(text.len() == 9);
    assert(text[0] == '#');
    assert(digits =~= format_byte(color.r) + format_byte(color.g) + format_byte(color.b)
        + format_byte(color.a));
    assert(digits[0] == format_byte(color.r)[0]);
    assert(digits[1] == format_byte(color.r)[1]);
    assert(digits[2] == format_byte(color.g)[0]);
    assert(digits[3] == format_byte(color.g)[1]);
    assert(digits[4] == format_byte(color.b)[0]);
    assert(digits[5] == format_byte(color.b)[1]);
    assert(digits[6] == format_byte(color.a)[0]);
    assert(digits[7] == format_byte(color.a)[1]);
    assert(all_hex(digits)) by {
        assert forall|i: int| 0 <= i < digits.len() implies is_hex_digit(
            #[trigger] digits[i],
        ) by {
            if i == 0 {
            } else if i == 1 {
            } else if i == 2 {
            } else if i == 3 {
            } else if i == 4 {
            } else if i == 5 {
            } else if i == 6 {
            } else {
                assert(i == 7);
            }
        }
    }
}

/// A text is refused exactly when, after an optional leading `#`, it has
/// neither 6 nor 8 characters or holds a character that is no hexadecimal
/// digit; the length is looked at first.
pub proof fn lemma_parse_fails(text: Seq<char>)
    ensures
        parse(text) is Ok <==> (strip_hash(text).len() == 6 || strip_hash(text).len() == 8)
            && all_hex(strip_hash(text)),
        parse(text) == Err::<Color, FormatError>(FormatError::WrongLength) <==> strip_hash(
            text,
        ).len() != 6 && strip_hash(text).len() != 8,
        parse(text) == Err::<Color, FormatError>(FormatError::NotHexadecimal) <==> (strip_hash(
            text,
        ).len() == 6 || strip_hash(text).len() == 8) && !all_hex(strip_hash(text)),
{
}

/// Six hexadecimal digits, with or without a leading `#`, are read as an
/// opaque color: written again they are `#`, the same digits in lower case,
/// and `ff`.
pub proof fn lemma_format_parse_six(digits: Seq<char>)
    requires
        digits.len() == 6,
        all_hex(digits),
    ensures
        parse(digits) is Ok,
        parse(seq!['#'] + digits) == parse(digits),
        parse(digits).unwrap().a == 255,
        format(parse(digits).unwrap()) == seq!['#'] + ascii_lowercase(digits) + seq!['f', 'f'],
{
    assert(is_hex_digit(digits[0]));
    assert(strip_hash(digits) == digits);
    assert(strip_hash(seq!['#'] + digits) =~= digits);
    let color = parse(digits).unwrap();
    lemma_pair_roundtrip(digits[0], digits[1]);
    lemma_pair_roundtrip(digits[2], digits[3]);
    lemma_pair_roundtrip(digits[4], digits[5]);
    assert(format_byte(255u8) =~= seq!['f', 'f']);
    assert(format(color) =~= seq!['#'] + ascii_lowercase(digits) + seq!['f', 'f']);
}

/// Eight hexadecimal digits, with or without a leading `#`, written again
/// after reading are `#` and the same digits in lower case.
pub proof fn lemma_format_parse_eight(digits: Seq<char>)
    requires
        digits.len() == 8,
        all_hex(digits),
    ensures
        parse(digits) is Ok,
        parse(seq!['#'] + digits) == parse(digits),
        format(parse(digits).unwrap()) == seq!['#'] + ascii_lowercase(digits),
{
    assert(is_hex_digit(digits[0]));
    assert(strip_hash(digits) == digits);
    assert(strip_hash(seq!['#'] + digits) =~= digits);
    let color = parse(digits).unwrap();
    lemma_pair_roundtrip(digits[0], digits[1]);
    lemma_pair_roundtrip(digits[2], digits[3]);
    lemma_pair_roundtrip(digits[4], digits[5]);
    lemma_pair_roundtrip(digits[6], digits[7]);
    assert(format(color) =~= seq!['#'] + ascii_lowercase(digits));
}

} // verus!
