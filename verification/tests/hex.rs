//! Hex strings and the errors of the `hex` crate.

use xcm_trace::decoder::{decode_message, MessageDecodeError};
use xcm_trace::hex_text::{decode_hex, HexDecodeError};
use xcm_trace::instruction::Instruction;
use xcm_trace::message::VersionedMessage;
use xcm_trace::xcm_v2::Plain;

#[test]
fn pairs_of_digits_are_bytes() {
    assert_eq!(decode_hex(""), Ok(vec![]));
    assert_eq!(decode_hex("00"), Ok(vec![0]));
    assert_eq!(decode_hex("0a"), Ok(vec![10]));
    assert_eq!(decode_hex("a0"), Ok(vec![160]));
    assert_eq!(decode_hex("ff"), Ok(vec![255]));
    assert_eq!(decode_hex("0123456789abcdef"), Ok(vec![0x01, 0x23, 0x45, 0x67, 0x89, 0xab, 0xcd, 0xef]));
    assert_eq!(decode_hex("ABCDEF"), Ok(vec![0xab, 0xcd, 0xef]));
    assert_eq!(decode_hex("aBcDeF"), Ok(vec![0xab, 0xcd, 0xef]));
}

#[test]
fn odd_length_comes_before_invalid_digits() {
    assert_eq!(decode_hex("1"), Err(HexDecodeError::OddLength));
    assert_eq!(decode_hex("abc"), Err(HexDecodeError::OddLength));
    assert_eq!(decode_hex("xyz"), Err(HexDecodeError::OddLength));
}

#[test]
fn first_invalid_digit_with_its_index() {
    assert_eq!(
        decode_hex("0g"),
        Err(HexDecodeError::InvalidHexCharacter { c: 'g', index: 1 })
    );
    assert_eq!(
        decode_hex("g0"),
        Err(HexDecodeError::InvalidHexCharacter { c: 'g', index: 0 })
    );
    assert_eq!(
        decode_hex("00112x3y"),
        Err(HexDecodeError::InvalidHexCharacter { c: 'x', index: 5 })
    );
    assert_eq!(
        decode_hex("0x00"),
        Err(HexDecodeError::InvalidHexCharacter { c: 'x', index: 1 })
    );
    // the neighbours of the digits in the character table
    for c in ['/', ':', '@', 'G', '`', 'g'] {
        assert_eq!(
            decode_hex(&format!("0{c}")),
            Err(HexDecodeError::InvalidHexCharacter { c, index: 1 })
        );
    }
}

#[test]
fn error_texts() {
    assert_eq!(HexDecodeError::OddLength.message(), "Odd number of digits");
    assert_eq!(HexDecodeError::InvalidStringLength.message(), "Invalid string length");
    assert_eq!(
        HexDecodeError::InvalidHexCharacter { c: 'x', index: 12 }.message(),
        "Invalid character 'x' at position 12"
    );
    assert_eq!(
        HexDecodeError::InvalidHexCharacter { c: '\n', index: 5 }.message(),
        "Invalid character '\\n' at position 5"
    );
    assert_eq!(MessageDecodeError.message(), "cannot parse input as versioned message");
}

#[test]
fn messages_from_bytes() {
    assert_eq!(decode_message(&[2, 0]), Ok(VersionedMessage::V2(vec![])));
    assert_eq!(decode_message(&[3, 0]), Ok(VersionedMessage::V3(vec![])));
    assert_eq!(
        decode_message(&[2, 8, 10, 21, 4, 10]),
        Ok(VersionedMessage::V2(vec![
            Instruction::Plain(Plain::ClearOrigin),
            Instruction::SetErrorHandler(vec![Instruction::Plain(Plain::ClearOrigin)]),
        ]))
    );
    assert_eq!(decode_message(&[]), Err(MessageDecodeError));
    assert_eq!(decode_message(&[0, 0]), Err(MessageDecodeError));
    assert_eq!(decode_message(&[1, 0]), Err(MessageDecodeError));
    assert_eq!(decode_message(&[4, 0]), Err(MessageDecodeError));
    assert_eq!(decode_message(&[2, 4]), Err(MessageDecodeError));
    assert_eq!(decode_message(&[2, 4, 200]), Err(MessageDecodeError));
}
