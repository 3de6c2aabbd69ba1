//! Hex strings and the bytes they stand for.

use vstd::prelude::*;
use vstd::string::StringSliceAdditionalSpecFns;

verus! {

/// Why a text is not the hex form of a byte sequence.
#[derive(Clone, Copy, Debug, PartialEq, Eq, Structural)]
pub enum HexDecodeError {
    /// The byte at `index` of the text is no hex digit; `c` is the character
    /// with that byte's value as its code point.
    InvalidHexCharacter { c: char, index: usize },
    /// The text has an odd number of bytes.
    OddLength,
    /// The text does not fill a container of fixed size. Decoding into a
    /// vector never gives this.
    InvalidStringLength,
}

/// The value of a hex digit, of either case.
pub open spec fn digit_value(digit: u8) -> Option<u8> {
    if 0x30 <= digit <= 0x39 {
        Some((digit - 0x30) as u8)
    } else if 0x61 <= digit <= 0x66 {
        Some((digit - 0x61 + 10) as u8)
    } else if 0x41 <= digit <= 0x46 {
        Some((digit - 0x41 + 10) as u8)
    } else {
        None
    }
}

/// Every byte of `text` is a hex digit.
pub open spec fn all_digits(text: Seq<u8>) -> bool {
    forall|i: int| 0 <= i < text.len() ==> (#[trigger] digit_value(text[i])) is Some
}

/// The index of the first byte of `text` that is no hex digit, or the
/// length of `text` where there is none.
pub open spec fn first_non_digit(text: Seq<u8>) -> int
    decreases text.len(),
{
    if text.len() == 0 || digit_value(text[0]) is None {
        0
    } else {
        1 + first_non_digit(text.drop_first())
    }
}

/// In a text that is not all digits, `first_non_digit` is the index of a
/// byte that is no digit, and every byte before it is one.
pub proof fn lemma_first_non_digit(text: Seq<u8>)
    requires
        !all_digits(text),
    ensures
        0 <= first_non_digit(text) < text.len(),
        digit_value(text[first_non_digit(text)]) is None,
        forall|i: int| 0 <= i < first_non_digit(text) ==> (#[trigger] digit_value(text[i])) is Some,
    decreases text.len(),
{
    if text.len() > 0 && digit_value(text[0]) is Some {
        let rest = text.drop_first();
        let bad = choose|i: int| 0 <= i < text.len() && (#[trigger] digit_value(text[i])) is None;
        assert(digit_value(rest[bad - 1]) is None);
        lemma_first_non_digit(rest);
        assert forall|i: int| 0 <= i < first_non_digit(text) implies (#[trigger] digit_value(
            text[i],
        )) is Some by {
            if i > 0 {
                assert(text[i] == rest[i - 1]);
            }
        }
    }
}

/// What a text stands for, read as hex: one byte for each pair of digits,
/// the first digit of a pair being the upper half. A text of odd length is
/// refused as such, whatever it holds; one of even length with a byte that
/// is no hex digit is refused with the first such byte.
pub open spec fn hex_decoded(text: Seq<u8>) -> Result<Seq<u8>, HexDecodeError> {
    if text.len() % 2 != 0 {
        Err(HexDecodeError::OddLength)
    } else if !all_digits(text) {
        let index = first_non_digit(text);
        Err(HexDecodeError::InvalidHexCharacter { c: text[index] as char, index: index as usize })
    } else {
        Ok(
            Seq::new(
                text.len() / 2,
                |i: int|
                    (16 * digit_value(text[2 * i]).unwrap() + digit_value(
                        text[2 * i + 1],
                    ).unwrap()) as u8,
            ),
        )
    }
}

/// `hex::decode`, on the bytes of a text. The contract states what the
/// function's source shows: the length is tested first, then the digits are
/// read pair by pair, from the left, and the first byte that is no digit
/// ends the decoding with its value and index; the error is handed on
/// variant for variant.
#[verifier::external_body]
fn decode_digits(text: &[u8]) -> (decoded: Result<Vec<u8>, HexDecodeError>)
    ensures
        match decoded {
            Ok(bytes) => hex_decoded(text@) == Ok::<Seq<u8>, HexDecodeError>(bytes@),
            Err(error) => hex_decoded(text@) == Err::<Seq<u8>, HexDecodeError>(error),
        },
{
    match hex::decode(text) {
        Ok(bytes) => Ok(bytes),
        Err(hex::FromHexError::InvalidHexCharacter { c, index }) => Err(
            HexDecodeError::InvalidHexCharacter { c, index },
        ),
        Err(hex::FromHexError::OddLength) => Err(HexDecodeError::OddLength),
        Err(hex::FromHexError::InvalidStringLength) => Err(HexDecodeError::InvalidStringLength),
    }
}

/// The text that the `hex` crate displays for an error.
pub uninterp spec fn hex_error_text(error: HexDecodeError) -> Seq<char>;

/// `<hex::FromHexError as Display>::fmt`, through `to_string`, on the error
/// that `error` was made from. The text is a function of the error, named
/// `hex_error_text`; for the two errors without fields the source gives it
/// as a literal.
#[verifier::external_body]
fn display_error(error: HexDecodeError) -> (text: String)
    ensures
        text@ == hex_error_text(error),
        error == HexDecodeError::OddLength ==> text@ == "Odd number of digits"@,
        error == HexDecodeError::InvalidStringLength ==> text@ == "Invalid string length"@,
{
    match error {
        HexDecodeError::InvalidHexCharacter { c, index } => hex::FromHexError::InvalidHexCharacter {
            c,
            index,
        },
        HexDecodeError::OddLength => hex::FromHexError::OddLength,
        HexDecodeError::InvalidStringLength => hex::FromHexError::InvalidStringLength,
    }.to_string()
}

impl HexDecodeError {
    /// The diagnostic for this error, in the words of the `hex` crate.
    pub fn message(&self) -> (text: String)
        ensures
            text@ == hex_error_text(*self),
            *self == HexDecodeError::OddLength ==> text@ == "Odd number of digits"@,
            *self == HexDecodeError::InvalidStringLength ==> text@ == "Invalid string length"@,
    {
        display_error(*self)
    }
}

/// Decodes a hex string, of either case and without a prefix, into the
/// bytes it stands for.
pub fn decode_hex(input: &str) -> (decoded: Result<Vec<u8>, HexDecodeError>)
    ensures
        match decoded {
            Ok(bytes) => hex_decoded(input.spec_bytes()) == Ok::<Seq<u8>, HexDecodeError>(bytes@),
            Err(error) => hex_decoded(input.spec_bytes()) == Err::<Seq<u8>, HexDecodeError>(error),
        },
{
    decode_digits(input.as_bytes())
}

} // verus!
