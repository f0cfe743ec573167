//! RGB colours and their six-digit hexadecimal text form.

use vstd::prelude::*;
use vstd::string::*;
use vstd::utf8::*;

verus! {

/// Why a text is not a hexadecimal rendering of the expected number of bytes.
#[derive(Clone, Copy, Debug, PartialEq, Eq, Structural)]
pub enum FromHexError {
    /// The byte at `index` is none of `0`-`9`, `a`-`f`, `A`-`F`.
    InvalidHexCharacter { c: char, index: usize },
    /// The text has an odd number of bytes.
    OddLength,
    /// The text has an even number of bytes, but not two per expected byte.
    InvalidStringLength,
}

/// RGB color
#[derive(Clone, Copy, Debug, PartialEq, Eq, Structural)]
pub struct RgbColor(pub u8, pub u8, pub u8);

/// The value of a hexadecimal digit given as an ASCII byte, in either case.
pub open spec fn hex_digit_value(c: u8) -> Option<u8> {
    if 0x30 <= c <= 0x39 {
        Some((c - 0x30) as u8)
    } else if 0x61 <= c <= 0x66 {
        Some((c - 0x61 + 10) as u8)
    } else if 0x41 <= c <= 0x46 {
        Some((c - 0x41 + 10) as u8)
    } else {
        None
    }
}

/// The lower-case hexadecimal digit for a value below 16.
pub open spec fn lower_hex_digit(n: int) -> char {
    if 0 <= n < 10 {
        (0x30 + n) as char
    } else {
        (0x61 + n - 10) as char
    }
}

/// The index of the first byte at or after `from` that is no hexadecimal digit.
pub open spec fn first_invalid_digit(bytes: Seq<u8>, from: int) -> Option<int>
    decreases bytes.len() - from,
{
    if from < 0 || from >= bytes.len() {
        None
    } else if hex_digit_value(bytes[from]) is None {
        Some(from)
    } else {
        first_invalid_digit(bytes, from + 1)
    }
}

/// The byte written by the two hexadecimal digits `hi` and `lo`.
pub open spec fn hex_pair_value(hi: u8, lo: u8) -> u8 {
    (hex_digit_value(hi).unwrap() * 16 + hex_digit_value(lo).unwrap()) as u8
}

/// What decoding `bytes` as the hexadecimal form of exactly `n` bytes gives:
/// the length is judged first, then the digits from left to right.
pub open spec fn hex_decoding(bytes: Seq<u8>, n: nat) -> Result<Seq<u8>, FromHexError> {
    if bytes.len() % 2 != 0 {
        Err(FromHexError::OddLength)
    } else if bytes.len() / 2 != n {
        Err(FromHexError::InvalidStringLength)
    } else {
        match first_invalid_digit(bytes, 0) {
            Some(i) => Err(
                FromHexError::InvalidHexCharacter { c: bytes[i] as char, index: i as usize },
            ),
            None => Ok(Seq::new(n, |i: int| hex_pair_value(bytes[2 * i], bytes[2 * i + 1]))),
        }
    }
}

/// The lower-case hexadecimal text of `bytes`, two digits per byte.
pub open spec fn hex_encoding(bytes: Seq<u8>) -> Seq<char> {
    Seq::new(
        2 * bytes.len(),
        |i: int|
            if i % 2 == 0 {
                lower_hex_digit(bytes[i / 2] as int / 16)
            } else {
                lower_hex_digit(bytes[i / 2] as int % 16)
            },
    )
}

/// Calls `hex::decode_to_slice` on a buffer of three bytes. The contract
/// restates that function: an odd length is refused first, then a length
/// other than six, then the first byte, from the left, that is no hexadecimal
/// digit; otherwise each pair of digits gives one byte, high digit first.
#[verifier::external_body]
fn hex_decode_three(text: &str) -> (r: Result<[u8; 3], FromHexError>)
    ensures
        match hex_decoding(text.spec_bytes(), 3) {
            Ok(bytes) => r is Ok && r->Ok_0@ == bytes,
            Err(e) => r == Err::<[u8; 3], FromHexError>(e),
        },
{
    let mut bytes = [0u8; 3];
    match hex::decode_to_slice(text, &mut bytes as &mut [u8]) {
        Ok(()) => Ok(bytes),
        Err(hex::FromHexError::InvalidHexCharacter { c, index }) => Err(
            FromHexError::InvalidHexCharacter { c, index },
        ),
        Err(hex::FromHexError::OddLength) => Err(FromHexError::OddLength),
        Err(hex::FromHexError::InvalidStringLength) => Err(FromHexError::InvalidStringLength),
    }
}

/// Calls `hex::encode`, which writes each byte as two lower-case hexadecimal
/// digits, high digit first.
#[verifier::external_body]
fn hex_encode_three(bytes: &[u8; 3]) -> (text: String)
    ensures
        text@ == hex_encoding(bytes@),
{
    hex::encode(bytes)
}

impl RgbColor {
    /// The three channels as a sequence: red, green, blue.
    pub open spec fn channels(self) -> Seq<u8> {
        seq![self.0, self.1, self.2]
    }

    /// The six lower-case hexadecimal digits of this colour.
    pub open spec fn hex_chars(self) -> Seq<char> {
        hex_encoding(self.channels())
    }

    /// The colour that the UTF-8 bytes of a text denote, or why they denote none.
    pub open spec fn from_hex_bytes(bytes: Seq<u8>) -> Result<RgbColor, FromHexError> {
        match hex_decoding(bytes, 3) {
            Ok(b) => Ok(RgbColor(b[0], b[1], b[2])),
            Err(e) => Err(e),
        }
    }

    /// The colour that a text denotes, or why it denotes none.
    pub open spec fn from_hex_chars(chars: Seq<char>) -> Result<RgbColor, FromHexError> {
        Self::from_hex_bytes(encode_utf8(chars))
    }

    pub fn red(&self) -> (r: u8)
        ensures
            r == self.0,
    {
        self.0
    }

    pub fn green(&self) -> (g: u8)
        ensures
            g == self.1,
    {
        self.1
    }

    pub fn blue(&self) -> (b: u8)
        ensures
            b == self.2,
    {
        self.2
    }

    /// Parses six hexadecimal digits, in either case, as red, green, blue.
    pub fn from_hex(rgb_hex: &str) -> (r: Result<Self, FromHexError>)
        ensures
            r == Self::from_hex_chars(rgb_hex@),
    {
        match hex_decode_three(rgb_hex) {
            Ok(bytes) => Ok(RgbColor(bytes[0], bytes[1], bytes[2])),
            Err(e) => Err(e),
        }
    }

    /// Six lower-case hexadecimal digits: red, green, blue.
    pub fn to_hex(&self) -> (text: String)
        ensures
            text@ == self.hex_chars(),
    {
        let bytes = [self.0, self.1, self.2];
        assert(bytes@ =~= self.channels());
        hex_encode_three(&bytes)
    }

    /// The colour as `0xRRGGBB`.
    pub fn to_int(&self) -> (n: u32)
        ensures
            n == self.0 as int * 0x1_0000 + self.1 as int * 0x100 + self.2 as int,
    {
        let r = self.0;
        let g = self.1;
        let b = self.2;
        assert(((r as u32) << 16) | ((g as u32) << 8) | (b as u32) == (r as u32) * 0x1_0000 + (g as u32)
            * 0x100 + (b as u32)) by (bit_vector);
        ((r as u32) << 16) | ((g as u32) << 8) | (b as u32)
    }
}

/// `first_invalid_digit` finds nothing exactly when every byte from `from` on
/// is a hexadecimal digit, and what it finds is the first byte that is none.
pub proof fn first_invalid_digit_is_first(bytes: Seq<u8>, from: int)
    requires
        0 <= from,
    ensures
        first_invalid_digit(bytes, from) is None <==> forall|i: int|
            from <= i < bytes.len() ==> hex_digit_value(#[trigger] bytes[i]) is Some,
        first_invalid_digit(bytes, from) matches Some(k) ==> from <= k < bytes.len()
            && hex_digit_value(bytes[k]) is None && forall|i: int|
            from <= i < k ==> hex_digit_value(#[trigger] bytes[i]) is Some,
    decreases bytes.len() - from,
{
    if from < bytes.len() && hex_digit_value(bytes[from]) is Some {
        first_invalid_digit_is_first(bytes, from + 1);
    }
}

/// A text is read as a colour exactly when its UTF-8 form is six hexadecimal
/// digits: any other length and any other character is refused.
pub proof fn from_hex_accepts_six_digits_only(chars: Seq<char>)
    ensures
        RgbColor::from_hex_chars(chars) is Ok <==> encode_utf8(chars).len() == 6 && forall|i: int|
            0 <= i < 6 ==> hex_digit_value(#[trigger] encode_utf8(chars)[i]) is Some,
{
    first_invalid_digit_is_first(encode_utf8(chars), 0);
}

/// Writing a colour as hexadecimal text and reading the text back gives the
/// colour again.
pub proof fn hex_round_trip(color: RgbColor)
    ensures
        RgbColor::from_hex_chars(color.hex_chars()) == Ok::<RgbColor, FromHexError>(color),
{
    let chars = color.hex_chars();
    let bytes = encode_utf8(chars);
    assert forall|i: int| 0 <= i < chars.len() implies '\0' <= #[trigger] chars[i] <= '\u{7f}' by {
        hex_digit_round_trip(color.channels()[i / 2]);
    }
    is_ascii_chars_encode_utf8(chars);
    assert(bytes.len() == 6);
    assert forall|i: int| 0 <= i < 6 implies hex_digit_value(#[trigger] bytes[i]) is Some by {
        hex_digit_round_trip(color.channels()[i / 2]);
        assert(bytes[i] == chars[i] as u8);
    }
    first_invalid_digit_is_first(bytes, 0);
    let decoded = hex_decoding(bytes, 3)->Ok_0;
    assert forall|k: int| 0 <= k < 3 implies decoded[k] == color.channels()[k] by {
        hex_digit_round_trip(color.channels()[k]);
        assert(bytes[2 * k] == chars[2 * k] as u8);
        assert(bytes[2 * k + 1] == chars[2 * k + 1] as u8);
    }
}

/// The two digits written for a byte are ASCII and denote that byte.
proof fn hex_digit_round_trip(b: u8)
    ensures
        '\0' <= lower_hex_digit(b as int / 16) <= '\u{7f}',
        '\0' <= lower_hex_digit(b as int % 16) <= '\u{7f}',
        hex_digit_value(lower_hex_digit(b as int / 16) as u8) == Some((b / 16) as u8),
        hex_digit_value(lower_hex_digit(b as int % 16) as u8) == Some((b % 16) as u8),
        hex_pair_value(
            lower_hex_digit(b as int / 16) as u8,
            lower_hex_digit(b as int % 16) as u8,
        ) == b,
{
}

} // verus!
