//! Colours written in hexadecimal, `#RRGGBB` or `#RRGGBBAA`.
//!
//! The toolkit's colours hold floating-point channels; this module reads the
//! hexadecimal text into byte channels, from which the host makes the
//! colour (each channel divided by 255).

use vstd::prelude::*;
use vstd::string::*;
use vstd::utf8::*;

verus! {

/// Whether `b` is an ASCII hexadecimal digit.
pub open spec fn is_hex_digit(b: u8) -> bool {
    (0x30 <= b <= 0x39) || (0x61 <= b <= 0x66) || (0x41 <= b <= 0x46)
}

/// The value of the hexadecimal digit `b`.
pub open spec fn hex_value(b: u8) -> nat {
    if 0x30 <= b <= 0x39 {
        (b - 0x30) as nat
    } else if 0x61 <= b <= 0x66 {
        (b - 0x61 + 10) as nat
    } else {
        (b - 0x41 + 10) as nat
    }
}

/// What `u8::from_str_radix` gives for the two-byte text `d1 d2` in base 16:
/// two hexadecimal digits, or a `+` sign and one digit; anything else is an
/// invalid digit.
pub open spec fn hex_pair(d1: u8, d2: u8) -> Option<u8> {
    if is_hex_digit(d1) && is_hex_digit(d2) {
        Some((16 * hex_value(d1) + hex_value(d2)) as u8)
    } else if d1 == 0x2b && is_hex_digit(d2) {
        Some(hex_value(d2) as u8)
    } else {
        None
    }
}

/// Whether `a` and `b` are the same byte, or hexadecimal digits of the same
/// value (one letter in upper case, the other in lower case).
pub open spec fn same_digit(a: u8, b: u8) -> bool {
    a == b || (is_hex_digit(a) && is_hex_digit(b) && hex_value(a) == hex_value(b))
}

/// Hexadecimal letters may be written in either case: a lower-case letter
/// and its upper-case form are the same digit, and a channel reads the same
/// value (or fails the same way) whatever the case of its letters.
pub proof fn lemma_hex_pair_ignores_case(d1: u8, d2: u8, e1: u8, e2: u8)
    requires
        same_digit(d1, e1),
        same_digit(d2, e2),
    ensures
        hex_pair(d1, d2) == hex_pair(e1, e2),
        0x61 <= d1 <= 0x66 ==> same_digit(d1, (d1 - 0x20) as u8),
{
}

/// The hexadecimal digit spelling the value `v` (below 16): `0`-`9`, then
/// `A`-`F` when `upper`, `a`-`f` otherwise.
pub open spec fn hex_char(v: nat, upper: bool) -> u8 {
    if v < 10 {
        (0x30 + v) as u8
    } else if upper {
        (0x41 + v - 10) as u8
    } else {
        (0x61 + v - 10) as u8
    }
}

/// Every two-digit hexadecimal spelling of a byte, in either case, reads
/// back as that byte: `0`-`9`, `a`-`f` and `A`-`F` are all digits, of values
/// 0 to 15 in that order.
pub proof fn lemma_hex_spelling_reads_back(v1: nat, v2: nat, u1: bool, u2: bool)
    requires
        v1 < 16,
        v2 < 16,
    ensures
        hex_pair(hex_char(v1, u1), hex_char(v2, u2)) == Some((16 * v1 + v2) as u8),
        hex_pair(0x2b, hex_char(v2, u2)) == Some(v2 as u8),
{
}

/// How reading one channel of a colour ends.
pub enum Channel {
    /// The channel's value.
    Value(u8),
    /// The two characters are not a number in base 16.
    InvalidDigit,
    /// The two bytes of the channel do not start and end on character
    /// boundaries, so the text cannot be cut there.
    NotCharBoundary,
}

/// Reading channel `k` of the text `b`: the bytes `1 + 2k` and `2 + 2k`.
pub open spec fn channel(b: Seq<u8>, k: nat) -> Channel {
    let start: nat = 1 + 2 * k;
    let end: nat = 3 + 2 * k;
    if !is_char_boundary(b, start as int) || !is_char_boundary(b, end as int) {
        Channel::NotCharBoundary
    } else {
        match hex_pair(b[start as int], b[start + 1 as int]) {
            Some(v) => Channel::Value(v),
            None => Channel::InvalidDigit,
        }
    }
}

/// How reading channels `k..n` in order ends: all their values, or the
/// first channel that could not be read.
pub enum Channels {
    Values(Seq<u8>),
    InvalidDigit,
    NotCharBoundary,
}

/// Reads channels `k..n` of `b`, first to last, stopping at the first that
/// cannot be read.
pub open spec fn channels_from(b: Seq<u8>, k: nat, n: nat) -> Channels
    decreases n - k,
{
    if k >= n {
        Channels::Values(Seq::empty())
    } else {
        match channel(b, k) {
            Channel::NotCharBoundary => Channels::NotCharBoundary,
            Channel::InvalidDigit => Channels::InvalidDigit,
            Channel::Value(v) => match channels_from(b, k + 1, n) {
                Channels::Values(rest) => Channels::Values(seq![v] + rest),
                other => other,
            },
        }
    }
}

/// The number of channels the text `b` spells: four for `#RRGGBBAA`, three
/// for `#RRGGBB`, none for any other text.
pub open spec fn channel_count(b: Seq<u8>) -> nat {
    if b.len() == 9 && b[0] == 0x23 {
        4
    } else if b.len() == 7 && b[0] == 0x23 {
        3
    } else {
        0
    }
}

/// Whether reading the colour `b` would cut the text inside a character.
pub open spec fn hex_color_cuts_char(b: Seq<u8>) -> bool {
    channel_count(b) > 0 && channels_from(b, 0, channel_count(b)) is NotCharBoundary
}

/// The channels of a colour read from hexadecimal text.
#[derive(Copy, Clone, Debug, PartialEq, Eq, Structural)]
pub struct HexColor {
    pub r: u8,
    pub g: u8,
    pub b: u8,
    /// The alpha channel; `255` (opaque) when the text gives none.
    pub a: u8,
}

/// Why hexadecimal text is not a colour.
#[derive(Copy, Clone, Debug, PartialEq, Eq, Structural)]
pub enum HexColorError {
    /// The text is neither `#` and eight characters nor `#` and six.
    InvalidFormat,
    /// A channel is not a number in base 16.
    InvalidDigit,
}

impl HexColorError {
    /// The text the error is reported with.
    pub fn message(&self) -> (r: String)
        ensures
            r@ == (match *self {
                HexColorError::InvalidFormat => "Error parsing hex. Example of valid formats: #FFFFFF or #ffffffff"@,
                HexColorError::InvalidDigit => "Error parsing hex: invalid digit found in string"@,
            }),
    {
        match self {
            HexColorError::InvalidFormat => "Error parsing hex. Example of valid formats: #FFFFFF or #ffffffff".to_owned(),
            HexColorError::InvalidDigit => "Error parsing hex: invalid digit found in string".to_owned(),
        }
    }
}

/// The colour spelled by the text `b`, or why it spells none.
pub open spec fn hex_color(b: Seq<u8>) -> Result<HexColor, HexColorError> {
    let n = channel_count(b);
    if n == 0 {
        Err(HexColorError::InvalidFormat)
    } else {
        match channels_from(b, 0, n) {
            Channels::Values(v) => Ok(
                HexColor { r: v[0], g: v[1], b: v[2], a: if n == 4 { v[3] } else { 255 } },
            ),
            _ => Err(HexColorError::InvalidDigit),
        }
    }
}

/// Where two valid UTF-8 texts differ only in the case of hexadecimal
/// letters, they have the same character boundaries.
proof fn lemma_same_boundaries(b1: Seq<u8>, b2: Seq<u8>, i: int)
    requires
        valid_utf8(b1),
        valid_utf8(b2),
        b1.len() == b2.len(),
        forall|j: int| 0 <= j < b1.len() ==> same_digit(#[trigger] b1[j], b2[j]),
        0 <= i <= b1.len(),
    ensures
        is_char_boundary(b1, i) == is_char_boundary(b2, i),
{
    if i == b1.len() {
        is_char_boundary_start_end_of_seq(b1);
        is_char_boundary_start_end_of_seq(b2);
    } else {
        is_char_boundary_iff_not_is_continuation_byte(b1, i);
        is_char_boundary_iff_not_is_continuation_byte(b2, i);
        assert(same_digit(b1[i], b2[i]));
    }
}

/// Two texts that differ only in the case of hexadecimal letters read the
/// same channels.
proof fn lemma_same_channels(b1: Seq<u8>, b2: Seq<u8>, k: nat, n: nat)
    requires
        valid_utf8(b1),
        valid_utf8(b2),
        b1.len() == b2.len(),
        forall|j: int| 0 <= j < b1.len() ==> same_digit(#[trigger] b1[j], b2[j]),
        1 + 2 * n <= b1.len(),
    ensures
        channels_from(b1, k, n) == channels_from(b2, k, n),
    decreases n - k,
{
    if k < n {
        let i: int = (1 + 2 * k) as int;
        lemma_same_boundaries(b1, b2, i);
        lemma_same_boundaries(b1, b2, i + 2);
        assert(same_digit(b1[i], b2[i]));
        assert(same_digit(b1[i + 1], b2[i + 1]));
        lemma_hex_pair_ignores_case(b1[i], b1[i + 1], b2[i], b2[i + 1]);
        assert(channel(b1, k) == channel(b2, k));
        lemma_same_channels(b1, b2, k + 1, n);
    }
}

/// Colours may be written with upper- or lower-case letters: two texts that
/// differ only in the case of hexadecimal letters spell the same colour, or
/// fail the same way, and one cuts a character where the other does.
pub proof fn lemma_hex_color_ignores_case(s1: &str, s2: &str)
    requires
        s1.spec_bytes().len() == s2.spec_bytes().len(),
        forall|i: int| 0 <= i < s1.spec_bytes().len() ==> same_digit(#[trigger] s1.spec_bytes()[i], s2.spec_bytes()[i]),
    ensures
        hex_color(s1.spec_bytes()) == hex_color(s2.spec_bytes()),
        hex_color_cuts_char(s1.spec_bytes()) == hex_color_cuts_char(s2.spec_bytes()),
{
    let b1 = s1.spec_bytes();
    let b2 = s2.spec_bytes();
    encode_utf8_valid_utf8(s1@);
    encode_utf8_valid_utf8(s2@);
    if b1.len() > 0 {
        assert(same_digit(b1[0], b2[0]));
    }
    assert(channel_count(b1) == channel_count(b2));
    if channel_count(b1) > 0 {
        lemma_same_channels(b1, b2, 0, channel_count(b1));
    }
}

/// The value of an ASCII hexadecimal digit.
pub fn hex_digit(x: u8) -> (r: usize)
    requires
        is_hex_digit(x),
    ensures
        r == hex_value(x),
{
    if x >= 0x30 && x <= 0x39 {
        (x - 0x30) as usize
    } else if x >= 0x61 && x <= 0x66 {
        (x - 0x61 + 10) as usize
    } else {
        (x - 0x41 + 10) as usize
    }
}

/// Whether `x` is an ASCII hexadecimal digit.
fn is_hex_digit_exec(x: u8) -> (r: bool)
    ensures
        r == is_hex_digit(x),
{
    (x >= 0x30 && x <= 0x39) || (x >= 0x61 && x <= 0x66) || (x >= 0x41 && x <= 0x46)
}

/// Reads channel `k` of `hex`.
fn read_channel(hex: &str, k: usize) -> (r: Channel)
    requires
        k < 4,
        3 + 2 * k <= hex.spec_bytes().len(),
    ensures
        r == channel(hex.spec_bytes(), k as nat),
{
    let start: usize = 1 + 2 * k;
    let end: usize = 3 + 2 * k;
    if !hex.is_char_boundary(start) || !hex.is_char_boundary(end) {
        return Channel::NotCharBoundary;
    }
    let b = hex.as_bytes();
    let d1: u8 = b[start];
    let d2: u8 = b[start + 1];
    if is_hex_digit_exec(d1) && is_hex_digit_exec(d2) {
        Channel::Value((16 * hex_digit(d1) + hex_digit(d2)) as u8)
    } else if d1 == 0x2b && is_hex_digit_exec(d2) {
        Channel::Value(hex_digit(d2) as u8)
    } else {
        Channel::InvalidDigit
    }
}

/// Reads the first `n` channels of `hex`, in order.
fn read_channels(hex: &str, n: usize) -> (r: Result<Vec<u8>, bool>)
    requires
        n <= 4,
        1 + 2 * n <= hex.spec_bytes().len(),
    ensures
        match channels_from(hex.spec_bytes(), 0, n as nat) {
            Channels::Values(v) => r matches Ok(out) && out@ == v,
            Channels::InvalidDigit => r == Err::<Vec<u8>, bool>(false),
            Channels::NotCharBoundary => r == Err::<Vec<u8>, bool>(true),
        },
        r matches Ok(out) ==> out@.len() == n,
{
    let ghost b = hex.spec_bytes();
    let mut out: Vec<u8> = Vec::new();
    let mut k: usize = 0;
    while k < n
        invariant
            b == hex.spec_bytes(),
            n <= 4,
            1 + 2 * n <= b.len(),
            k <= n,
            out@.len() == k,
            forall|rest: Seq<u8>| channels_from(b, k as nat, n as nat) == Channels::Values(rest)
                ==> channels_from(b, 0, n as nat) == Channels::Values(out@ + rest),
            channels_from(b, k as nat, n as nat) is InvalidDigit ==> channels_from(b, 0, n as nat) is InvalidDigit,
            channels_from(b, k as nat, n as nat) is NotCharBoundary ==> channels_from(b, 0, n as nat) is NotCharBoundary,
        decreases n - k,
    {
        match read_channel(hex, k) {
            Channel::NotCharBoundary => {
                return Err(true);
            },
            Channel::InvalidDigit => {
                return Err(false);
            },
            Channel::Value(v) => {
                proof {
                    assert forall|rest: Seq<u8>| channels_from(b, (k + 1) as nat, n as nat) == Channels::Values(rest)
                        implies channels_from(b, 0, n as nat) == Channels::Values(out@.push(v) + rest) by {
                        assert(channels_from(b, k as nat, n as nat) == Channels::Values(seq![v] + rest));
                        assert(out@ + (seq![v] + rest) =~= out@.push(v) + rest);
                    }
                }
                out.push(v);
            },
        }
        k = k + 1;
    }
    proof {
        assert(channels_from(b, n as nat, n as nat) == Channels::Values(Seq::<u8>::empty()));
        assert(out@ + Seq::<u8>::empty() =~= out@);
    }
    Ok(out)
}

/// Whether reading `hex` as a colour would cut the text inside a character,
/// which no reading may do.
pub fn hex_color_cuts_char_exec(hex: &str) -> (r: bool)
    ensures
        r == hex_color_cuts_char(hex.spec_bytes()),
{
    let b = hex.as_bytes();
    let n: usize = if b.len() == 9 && b[0] == 0x23 {
        4
    } else if b.len() == 7 && b[0] == 0x23 {
        3
    } else {
        0
    };
    if n == 0 {
        return false;
    }
    match read_channels(hex, n) {
        Err(cut) => cut,
        Ok(_) => false,
    }
}

/// Reads a colour from `#RRGGBBAA` (red, green, blue, alpha) or `#RRGGBB`
/// (opaque) hexadecimal text; digits may be upper or lower case.
pub fn parse_hex_color(hex: &str) -> (r: Result<HexColor, HexColorError>)
    requires
        !hex_color_cuts_char(hex.spec_bytes()),
    ensures
        r == hex_color(hex.spec_bytes()),
{
    let b = hex.as_bytes();
    let n: usize = if b.len() == 9 && b[0] == 0x23 {
        4
    } else if b.len() == 7 && b[0] == 0x23 {
        3
    } else {
        0
    };
    if n == 0 {
        return Err(HexColorError::InvalidFormat);
    }
    match read_channels(hex, n) {
        Err(_) => Err(HexColorError::InvalidDigit),
        Ok(v) => {
            let a: u8 = if n == 4 { v[3] } else { 255 };
            Ok(HexColor { r: v[0], g: v[1], b: v[2], a })
        },
    }
}

/// The lookup-table indices of the red, green and blue channels of a colour
/// written `?RRGGBB...` in hexadecimal digits (the first byte is not read).
pub fn hex_const_indices(hex: &str) -> (r: [usize; 3])
    requires
        hex.spec_bytes().len() >= 7,
        forall|i: int| 1 <= i <= 6 ==> is_hex_digit(#[trigger] hex.spec_bytes()[i]),
    ensures
        forall|k: int| 0 <= k < 3 ==> #[trigger] r@[k] == 16 * hex_value(hex.spec_bytes()[1 + 2 * k])
            + hex_value(hex.spec_bytes()[2 + 2 * k]),
{
    let bytes = hex.as_bytes();
    let ghost b = hex.spec_bytes();
    assert(is_hex_digit(b[1]) && is_hex_digit(b[2]) && is_hex_digit(b[3]));
    assert(is_hex_digit(b[4]) && is_hex_digit(b[5]) && is_hex_digit(b[6]));
    let r: usize = hex_digit(bytes[1]) * 16 + hex_digit(bytes[2]);
    let g: usize = hex_digit(bytes[3]) * 16 + hex_digit(bytes[4]);
    let bl: usize = hex_digit(bytes[5]) * 16 + hex_digit(bytes[6]);
    let out = [r, g, bl];
    assert(out@[0] == r && out@[1] == g && out@[2] == bl);
    out
}

} // verus!
