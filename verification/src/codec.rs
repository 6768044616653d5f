use vstd::prelude::*;

use crate::error::ThemeError;

verus! {

/// An RGB color with three 8-bit channels and no alpha.
#[derive(Clone, Copy, Debug, PartialEq, Eq, Structural)]
pub struct RgbColor {
    pub red: u8,
    pub green: u8,
    pub blue: u8,
}

/// A character that may appear in a hex color string.
pub open spec fn is_hex_digit(c: char) -> bool {
    ('0' <= c && c <= '9') || ('a' <= c && c <= 'f') || ('A' <= c && c <= 'F')
}

/// The numeric value of one hex digit.
pub open spec fn hex_val(c: char) -> int
    recommends
        is_hex_digit(c),
{
    if '0' <= c && c <= '9' {
        c as int - '0' as int
    } else if 'a' <= c && c <= 'f' {
        c as int - 'a' as int + 10
    } else {
        c as int - 'A' as int + 10
    }
}

/// A valid hex color string: exactly six hex digits, no prefix.
pub open spec fn valid_hex6(s: Seq<char>) -> bool {
    s.len() == 6 && is_hex_digit(s[0]) && is_hex_digit(s[1]) && is_hex_digit(s[2]) && is_hex_digit(
        s[3],
    ) && is_hex_digit(s[4]) && is_hex_digit(s[5])
}

/// The channel value of one two-digit hex group.
pub open spec fn pair_val(hi: char, lo: char) -> int {
    16 * hex_val(hi) + hex_val(lo)
}

/// The color a valid hex color string stands for: red, green, blue pairs in order.
pub open spec fn decode_spec(s: Seq<char>) -> RgbColor
    recommends
        valid_hex6(s),
{
    RgbColor {
        red: pair_val(s[0], s[1]) as u8,
        green: pair_val(s[2], s[3]) as u8,
        blue: pair_val(s[4], s[5]) as u8,
    }
}

/// The digit character for one value below the radix, lowercase.
pub open spec fn digit_char_of(d: u32) -> char
    recommends
        d < 36,
{
    if d == 0 {
        '0'
    } else if d == 1 {
        '1'
    } else if d == 2 {
        '2'
    } else if d == 3 {
        '3'
    } else if d == 4 {
        '4'
    } else if d == 5 {
        '5'
    } else if d == 6 {
        '6'
    } else if d == 7 {
        '7'
    } else if d == 8 {
        '8'
    } else if d == 9 {
        '9'
    } else if d == 10 {
        'a'
    } else if d == 11 {
        'b'
    } else if d == 12 {
        'c'
    } else if d == 13 {
        'd'
    } else if d == 14 {
        'e'
    } else if d == 15 {
        'f'
    } else if d == 16 {
        'g'
    } else if d == 17 {
        'h'
    } else if d == 18 {
        'i'
    } else if d == 19 {
        'j'
    } else if d == 20 {
        'k'
    } else if d == 21 {
        'l'
    } else if d == 22 {
        'm'
    } else if d == 23 {
        'n'
    } else if d == 24 {
        'o'
    } else if d == 25 {
        'p'
    } else if d == 26 {
        'q'
    } else if d == 27 {
        'r'
    } else if d == 28 {
        's'
    } else if d == 29 {
        't'
    } else if d == 30 {
        'u'
    } else if d == 31 {
        'v'
    } else if d == 32 {
        'w'
    } else if d == 33 {
        'x'
    } else if d == 34 {
        'y'
    } else {
        'z'
    }
}

/// The canonical two-digit lowercase encoding of one channel.
pub open spec fn encode_channel(v: u8) -> Seq<char> {
    seq![digit_char_of((v / 16) as u32), digit_char_of((v % 16) as u32)]
}

/// The canonical encoding of a color: red, green, blue groups in order,
/// each zero-padded to two lowercase hex digits.
pub open spec fn encode_spec(c: RgbColor) -> Seq<char> {
    encode_channel(c.red) + encode_channel(c.green) + encode_channel(c.blue)
}

/// A lowercase hex digit, as the canonical encoding produces them.
pub open spec fn is_lower_hex_digit(c: char) -> bool {
    ('0' <= c && c <= '9') || ('a' <= c && c <= 'f')
}

/// A string in the canonical serialized form: six lowercase hex digits.
pub open spec fn lower_hex6(s: Seq<char>) -> bool {
    s.len() == 6 && is_lower_hex_digit(s[0]) && is_lower_hex_digit(s[1]) && is_lower_hex_digit(
        s[2],
    ) && is_lower_hex_digit(s[3]) && is_lower_hex_digit(s[4]) && is_lower_hex_digit(s[5])
}

/// The digit characters below 16 are exactly the lowercase hex digits,
/// and reading one back gives the value it was made from.
proof fn lemma_digit_val(d: u32)
    requires
        d < 16,
    ensures
        is_lower_hex_digit(digit_char_of(d)),
        is_hex_digit(digit_char_of(d)),
        hex_val(digit_char_of(d)) == d as int,
{
}

/// One encoded channel: two lowercase hex digits worth the channel value.
proof fn lemma_encode_channel(v: u8)
    ensures
        encode_channel(v).len() == 2,
        is_lower_hex_digit(encode_channel(v)[0]),
        is_lower_hex_digit(encode_channel(v)[1]),
        is_hex_digit(encode_channel(v)[0]),
        is_hex_digit(encode_channel(v)[1]),
        pair_val(encode_channel(v)[0], encode_channel(v)[1]) == v as int,
{
    vstd::arithmetic::div_mod::lemma_fundamental_div_mod(v as int, 16);
    vstd::arithmetic::div_mod::lemma_mod_division_less_than_divisor(v as int, 16);
    vstd::arithmetic::div_mod::lemma_div_pos_is_pos(v as int, 16);
    vstd::arithmetic::div_mod::lemma_div_is_ordered(v as int, 255, 16);
    lemma_digit_val((v as int / 16) as u32);
    lemma_digit_val((v as int % 16) as u32);
}

/// Decoding is a left inverse of encoding: every color comes back
/// unchanged from its canonical six-digit form, which is itself valid.
pub proof fn lemma_decode_encode(c: RgbColor)
    ensures
        valid_hex6(encode_spec(c)),
        lower_hex6(encode_spec(c)),
        decode_spec(encode_spec(c)) == c,
{
    lemma_encode_channel(c.red);
    lemma_encode_channel(c.green);
    lemma_encode_channel(c.blue);
    assert(encode_spec(c)[0] == encode_channel(c.red)[0]);
    assert(encode_spec(c)[1] == encode_channel(c.red)[1]);
    assert(encode_spec(c)[2] == encode_channel(c.green)[0]);
    assert(encode_spec(c)[3] == encode_channel(c.green)[1]);
    assert(encode_spec(c)[4] == encode_channel(c.blue)[0]);
    assert(encode_spec(c)[5] == encode_channel(c.blue)[1]);
}

/// Re-encoding a decoded valid hex string normalizes it: the result is
/// canonical (lowercase, zero-padded, six digits) and stands for the
/// same channel values as the input.
pub proof fn lemma_encode_decode(s: Seq<char>)
    requires
        valid_hex6(s),
    ensures
        lower_hex6(encode_spec(decode_spec(s))),
        valid_hex6(encode_spec(decode_spec(s))),
        decode_spec(encode_spec(decode_spec(s))) == decode_spec(s),
{
    lemma_decode_encode(decode_spec(s));
}

/// The numeric value of one hex digit, or nothing for any other character.
fn hex_digit(c: char) -> (r: Option<u8>)
    ensures
        is_hex_digit(c) ==> r == Some((hex_val(c) as u8)),
        !is_hex_digit(c) ==> r is None,
{
    if '0' <= c && c <= '9' {
        Some(c as u8 - '0' as u8)
    } else if 'a' <= c && c <= 'f' {
        Some(c as u8 - 'a' as u8 + 10)
    } else if 'A' <= c && c <= 'F' {
        Some(c as u8 - 'A' as u8 + 10)
    } else {
        None
    }
}

/// The digit character for one value below the radix, lowercase.
fn digit_char(d: u32) -> (c: char)
    requires
        d < 36,
    ensures
        c == digit_char_of(d),
{
    match d {
        0 => '0',
        1 => '1',
        2 => '2',
        3 => '3',
        4 => '4',
        5 => '5',
        6 => '6',
        7 => '7',
        8 => '8',
        9 => '9',
        10 => 'a',
        11 => 'b',
        12 => 'c',
        13 => 'd',
        14 => 'e',
        15 => 'f',
        16 => 'g',
        17 => 'h',
        18 => 'i',
        19 => 'j',
        20 => 'k',
        21 => 'l',
        22 => 'm',
        23 => 'n',
        24 => 'o',
        25 => 'p',
        26 => 'q',
        27 => 'r',
        28 => 's',
        29 => 't',
        30 => 'u',
        31 => 'v',
        32 => 'w',
        33 => 'x',
        34 => 'y',
        _ => 'z',
    }
}

/// Relies on `core::iter::Iterator::collect`: collecting characters
/// yields the string made of exactly those characters in order.
#[verifier::external_body]
pub(crate) fn chars_to_string(v: &Vec<char>) -> (s: String)
    ensures
        s@ == v@,
{
    v.iter().collect()
}

/// The base-radix representation of a number, most significant digit
/// first, lowercase, without leading zeroes (zero itself is "0").
pub open spec fn radix_rep(x: int, radix: int) -> Seq<char>
    recommends
        0 <= x,
        2 <= radix <= 36,
    decreases x,
    when 0 <= x && 2 <= radix
    via radix_rep_decreases
{
    if x < radix {
        seq![digit_char_of(x as u32)]
    } else {
        radix_rep(x / radix, radix) + seq![digit_char_of((x % radix) as u32)]
    }
}

#[via_fn]
proof fn radix_rep_decreases(x: int, radix: int) {
    if 0 <= x && 2 <= radix && x >= radix {
        vstd::arithmetic::div_mod::lemma_div_decreases(x, radix);
        vstd::arithmetic::div_mod::lemma_div_pos_is_pos(x, radix);
    }
}

/// The digits of the base-radix representation, in order.
fn radix_digits(x: u32, radix: u32) -> (r: Vec<char>)
    requires
        2 <= radix <= 36,
    ensures
        r@ == radix_rep(x as int, radix as int),
    decreases x,
{
    proof {
        vstd::arithmetic::div_mod::lemma_mod_division_less_than_divisor(x as int, radix as int);
        if x >= radix {
            vstd::arithmetic::div_mod::lemma_div_decreases(x as int, radix as int);
            vstd::arithmetic::div_mod::lemma_div_pos_is_pos(x as int, radix as int);
        }
    }
    if x < radix {
        let mut v: Vec<char> = Vec::new();
        v.push(digit_char(x));
        v
    } else {
        let mut v = radix_digits(x / radix, radix);
        v.push(digit_char(x % radix));
        v
    }
}

/// Format a number in the given radix, lowercase, without leading zeroes.
pub fn format_radix(x: u32, radix: u32) -> (r: String)
    requires
        2 <= radix <= 36,
    ensures
        r@ == radix_rep(x as int, radix as int),
{
    let digits = radix_digits(x, radix);
    chars_to_string(&digits)
}

/// For channels the plain representation has one digit exactly when the
/// value is below 16; the canonical form then carries a leading zero.
proof fn lemma_radix_rep_channel(v: u8)
    ensures
        v < 16 ==> encode_channel(v) == seq!['0'] + radix_rep(v as int, 16),
        v >= 16 ==> encode_channel(v) == radix_rep(v as int, 16),
{
    vstd::arithmetic::div_mod::lemma_fundamental_div_mod(v as int, 16);
    vstd::arithmetic::div_mod::lemma_mod_division_less_than_divisor(v as int, 16);
    vstd::arithmetic::div_mod::lemma_div_pos_is_pos(v as int, 16);
    if v < 16 {
        lemma_small_div_mod(v as int, 16);
        assert(encode_channel(v) =~= seq!['0'] + radix_rep(v as int, 16));
    } else {
        assert(v as int / 16 < 16 && v as int / 16 >= 1);
        assert(radix_rep(v as int / 16, 16) == seq![digit_char_of((v as int / 16) as u32)]);
        assert(encode_channel(v) =~= radix_rep(v as int, 16));
    }
}

/// Division and remainder act as identity and zero below the divisor.
proof fn lemma_small_div_mod(x: int, d: int)
    requires
        0 <= x < d,
    ensures
        x / d == 0,
        x % d == x,
{
    vstd::arithmetic::div_mod::lemma_small_mod(x as nat, d as nat);
    vstd::arithmetic::div_mod::lemma_fundamental_div_mod(x, d);
    assert(d * (x / d) == 0);
    assert(x / d == 0) by (nonlinear_arith)
        requires
            d > 0,
            d * (x / d) == 0,
    ;
}

/// The canonical two-digit form of one channel, zero-padded below 16.
fn channel_hex(v: u8) -> (r: String)
    ensures
        r@ == encode_channel(v),
{
    let s = format_radix(v as u32, 16);
    proof {
        lemma_radix_rep_channel(v);
    }
    if v < 16 {
        let z = String::from_str("0");
        proof {
            reveal_strlit("0");
            assert(z@ =~= seq!['0']);
        }
        z.concat(s.as_str())
    } else {
        s
    }
}

/// Encode a color as six lowercase hex digits: red, green, blue pairs
/// in order, each zero-padded to width two.
pub fn string_from_col(color: &RgbColor) -> (r: String)
    ensures
        r@ == encode_spec(*color),
        r@.len() == 6,
{
    let rs = channel_hex(color.red);
    let gs = channel_hex(color.green);
    let bs = channel_hex(color.blue);
    rs.concat(gs.as_str()).concat(bs.as_str())
}

/// Decode a six-digit hex color string into its three channels.
/// Any other input is rejected, never truncated or padded.
pub fn string_to_color(x: String) -> (r: Result<RgbColor, ThemeError>)
    ensures
        valid_hex6(x@) ==> r == Ok::<RgbColor, ThemeError>(decode_spec(x@)),
        !valid_hex6(x@) ==> r == Err::<RgbColor, ThemeError>(ThemeError::ColorFormatError),
{
    let s = x.as_str();
    if s.unicode_len() != 6 {
        return Err(ThemeError::ColorFormatError);
    }
    let d0 = hex_digit(s.get_char(0));
    let d1 = hex_digit(s.get_char(1));
    let d2 = hex_digit(s.get_char(2));
    let d3 = hex_digit(s.get_char(3));
    let d4 = hex_digit(s.get_char(4));
    let d5 = hex_digit(s.get_char(5));
    match (d0, d1, d2, d3, d4, d5) {
        (Some(h0), Some(h1), Some(h2), Some(h3), Some(h4), Some(h5)) => Ok(
            RgbColor { red: 16 * h0 + h1, green: 16 * h2 + h3, blue: 16 * h4 + h5 },
        ),
        _ => Err(ThemeError::ColorFormatError),
    }
}

} // verus!

