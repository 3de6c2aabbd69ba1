//! From input to trace: hex decoding, message decoding, rendering.

use vstd::prelude::*;
use vstd::string::StringSliceAdditionalSpecFns;
use crate::decoder::{decode_message, decoded_message, MessageDecodeError};
use crate::hex_text::{decode_hex, hex_decoded, hex_error_text, HexDecodeError};
use crate::message::{render_message, rendered};

verus! {

/// Why an input has no trace.
#[derive(Clone, Copy, Debug, PartialEq, Eq, Structural)]
pub enum TraceError {
    /// The input is not a hex string.
    HexDecode(HexDecodeError),
    /// The input is a hex string, and the bytes that it stands for are not
    /// a message.
    MessageDecode(MessageDecodeError),
}

impl TraceError {
    /// The diagnostic for this error.
    pub open spec fn text(self) -> Seq<char> {
        match self {
            TraceError::HexDecode(error) => hex_error_text(error),
            TraceError::MessageDecode(_) => "cannot parse input as versioned message"@,
        }
    }

    /// The diagnostic for this error.
    pub fn message(&self) -> (text: String)
        ensures
            text@ == self.text(),
    {
        match self {
            TraceError::HexDecode(error) => error.message(),
            TraceError::MessageDecode(error) => error.message(),
        }
    }
}

/// The trace of the message that a byte sequence stands for.
pub open spec fn traced_bytes(bytes: Seq<u8>) -> Result<Seq<char>, TraceError> {
    match decoded_message(bytes) {
        Some(message) => Ok(rendered(message)),
        None => Err(TraceError::MessageDecode(MessageDecodeError)),
    }
}

/// The trace of the message that a hex text stands for. The text is read
/// as hex first, and only its bytes are read as a message.
pub open spec fn traced(text: Seq<u8>) -> Result<Seq<char>, TraceError> {
    match hex_decoded(text) {
        Ok(bytes) => traced_bytes(bytes),
        Err(error) => Err(TraceError::HexDecode(error)),
    }
}

/// Decodes a message and renders its trace. The result is a function of
/// the bytes: the same bytes give the same trace, or the same error.
pub fn trace_bytes(bytes: &[u8]) -> (out: Result<String, TraceError>)
    ensures
        match out {
            Ok(text) => traced_bytes(bytes@) == Ok::<Seq<char>, TraceError>(text@),
            Err(error) => traced_bytes(bytes@) == Err::<Seq<char>, TraceError>(error),
        },
        bytes@.len() == 0 || (bytes@[0] != 2 && bytes@[0] != 3) ==> out == Err::<
            String,
            TraceError,
        >(TraceError::MessageDecode(MessageDecodeError)),
{
    match decode_message(bytes) {
        Ok(message) => Ok(render_message(&message)),
        Err(error) => Err(TraceError::MessageDecode(error)),
    }
}

/// Renders the trace of the message that a hex string stands for.
pub fn trace_hex(input: &str) -> (out: Result<String, TraceError>)
    ensures
        match out {
            Ok(text) => traced(input.spec_bytes()) == Ok::<Seq<char>, TraceError>(text@),
            Err(error) => traced(input.spec_bytes()) == Err::<Seq<char>, TraceError>(error),
        },
        input.spec_bytes().len() % 2 == 1 ==> out == Err::<String, TraceError>(
            TraceError::HexDecode(HexDecodeError::OddLength),
        ),
{
    match decode_hex(input) {
        Ok(bytes) => trace_bytes(bytes.as_slice()),
        Err(error) => Err(TraceError::HexDecode(error)),
    }
}

} // verus!
