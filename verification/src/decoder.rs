//! The decoder adapter: from bytes to a versioned message.
//!
//! The binary format is decoded by the `xcm` crate. What comes back is read
//! here through a few accessors and turned into the library's own
//! instructions.

use vstd::prelude::*;
use parity_scale_codec::{Decode, Encode};
use crate::instruction::{
    assemble, instruction_of, lemma_outlines_push, nested_outlines, outlines, Instruction, Kind,
    Outline,
};
use crate::message::{Message, VersionedMessage};

verus! {

/// A version 2 program as the `xcm` crate holds it.
#[verifier::external_type_specification]
#[verifier::external_body]
#[verifier::reject_recursive_types(RuntimeCall)]
pub struct ExXcmV2<RuntimeCall>(staging_xcm::v2::Xcm<RuntimeCall>);

/// A version 3 program as the `xcm` crate holds it.
#[verifier::external_type_specification]
#[verifier::external_body]
#[verifier::reject_recursive_types(Call)]
pub struct ExXcmV3<Call>(staging_xcm::v3::Xcm<Call>);

/// What the trace reads of one decoded instruction.
pub struct RawInstruction {
    /// The instruction's own encoding. Its first byte is the discriminant.
    pub encoding: Seq<u8>,
    /// The program that the instruction holds as its operand, for the two
    /// instructions that hold one.
    pub nested: Option<Seq<RawInstruction>>,
}

/// What the trace reads of a decoded message.
pub enum RawMessage {
    V2(Seq<RawInstruction>),
    V3(Seq<RawInstruction>),
}

/// The instructions that a decoded version 2 program holds, in order.
pub uninterp spec fn v2_items(program: staging_xcm::v2::Xcm<()>) -> Seq<RawInstruction>;

/// The instructions that a decoded version 3 program holds, in order.
pub uninterp spec fn v3_items(program: staging_xcm::v3::Xcm<()>) -> Seq<RawInstruction>;

/// What the `xcm` crate decodes a byte sequence to, if it decodes it.
pub uninterp spec fn scale_decoded(bytes: Seq<u8>) -> Option<RawMessage>;

/// A message as the `xcm` crate decoded it.
pub enum Decoded {
    V2(staging_xcm::v2::Xcm<()>),
    V3(staging_xcm::v3::Xcm<()>),
}

impl Decoded {
    /// What the trace reads of the message.
    pub open spec fn raw(self) -> RawMessage {
        match self {
            Decoded::V2(program) => RawMessage::V2(v2_items(program)),
            Decoded::V3(program) => RawMessage::V3(v3_items(program)),
        }
    }
}

/// `<staging_xcm::VersionedXcm<()> as Decode>::decode`, on a byte slice;
/// bytes that follow the message are not read. What comes back is a
/// function of the bytes, named `scale_decoded`: the version, and the
/// instructions of the program under the names `v2_items` and `v3_items`.
/// The crate's source gives the two versions the discriminants 2 and 3 and
/// decodes no other, so a decoded message starts with the byte of its
/// version.
#[verifier::external_body]
fn decode_versioned(bytes: &[u8]) -> (decoded: Option<Decoded>)
    ensures
        match decoded {
            Some(Decoded::V2(program)) => {
                &&& bytes@.len() > 0 && bytes@[0] == 2
                &&& scale_decoded(bytes@) == Some(RawMessage::V2(v2_items(program)))
            },
            Some(Decoded::V3(program)) => {
                &&& bytes@.len() > 0 && bytes@[0] == 3
                &&& scale_decoded(bytes@) == Some(RawMessage::V3(v3_items(program)))
            },
            None => scale_decoded(bytes@) is None,
        },
{
    match staging_xcm::VersionedXcm::<()>::decode(&mut &bytes[..]) {
        Ok(staging_xcm::VersionedXcm::V2(program)) => Some(Decoded::V2(program)),
        Ok(staging_xcm::VersionedXcm::V3(program)) => Some(Decoded::V3(program)),
        Err(_) => None,
    }
}

/// `Encode::encode` on each instruction of a version 2 program, in order:
/// the result holds one encoding for each instruction, and `v2_items` has
/// it as the `encoding` of that instruction.
#[verifier::external_body]
fn v2_encodings(program: &staging_xcm::v2::Xcm<()>) -> (encodings: Vec<Vec<u8>>)
    ensures
        encodings@.len() == v2_items(*program).len(),
        forall|i: int|
            0 <= i < encodings@.len() ==> (#[trigger] encodings@[i])@ == v2_items(
                *program,
            )[i].encoding,
{
    program.0.iter().map(|instruction| instruction.encode()).collect()
}

/// Tells the variants of `staging_xcm::v2::Instruction` apart, for the
/// instruction at `index` of a program: the operand of `SetErrorHandler`
/// and of `SetAppendix` is handed out, and `v2_items` has its instructions
/// as `nested`; every other variant has none.
#[verifier::external_body]
fn v2_nested(program: &staging_xcm::v2::Xcm<()>, index: usize) -> (nested: Option<
    &staging_xcm::v2::Xcm<()>,
>)
    requires
        index < v2_items(*program).len(),
    ensures
        match nested {
            Some(inner) => v2_items(*program)[index as int].nested == Some(v2_items(*inner)),
            None => v2_items(*program)[index as int].nested is None,
        },
{
    match &program.0[index] {
        staging_xcm::v2::Instruction::SetErrorHandler(inner) => Some(inner),
        staging_xcm::v2::Instruction::SetAppendix(inner) => Some(inner),
        _ => None,
    }
}

/// `Encode::encode` on each instruction of a version 3 program, in order:
/// the result holds one encoding for each instruction, and `v3_items` has
/// it as the `encoding` of that instruction.
#[verifier::external_body]
fn v3_encodings(program: &staging_xcm::v3::Xcm<()>) -> (encodings: Vec<Vec<u8>>)
    ensures
        encodings@.len() == v3_items(*program).len(),
        forall|i: int|
            0 <= i < encodings@.len() ==> (#[trigger] encodings@[i])@ == v3_items(
                *program,
            )[i].encoding,
{
    program.0.iter().map(|instruction| instruction.encode()).collect()
}

/// Tells the variants of `staging_xcm::v3::Instruction` apart, for the
/// instruction at `index` of a program: the operand of `SetErrorHandler`
/// and of `SetAppendix` is handed out, and `v3_items` has its instructions
/// as `nested`; every other variant has none.
#[verifier::external_body]
fn v3_nested(program: &staging_xcm::v3::Xcm<()>, index: usize) -> (nested: Option<
    &staging_xcm::v3::Xcm<()>,
>)
    requires
        index < v3_items(*program).len(),
    ensures
        match nested {
            Some(inner) => v3_items(*program)[index as int].nested == Some(v3_items(*inner)),
            None => v3_items(*program)[index as int].nested is None,
        },
{
    match &program.0[index] {
        staging_xcm::v3::Instruction::SetErrorHandler(inner) => Some(inner),
        staging_xcm::v3::Instruction::SetAppendix(inner) => Some(inner),
        _ => None,
    }
}

/// The bytes are not the encoding of a message of a supported version.
#[derive(Clone, Copy, Debug, PartialEq, Eq, Structural)]
pub struct MessageDecodeError;

impl MessageDecodeError {
    /// The diagnostic for this error. It is the same for every input, and
    /// says nothing of where the decoding stopped.
    pub fn message(&self) -> (text: String)
        ensures
            text@ == "cannot parse input as versioned message"@,
    {
        String::from_str("cannot parse input as versioned message")
    }
}

/// The instruction of version `K` that a decoded instruction is read as.
pub open spec fn outline_of<K: Kind>(raw: RawInstruction) -> Option<Outline<K>>
    decreases raw,
{
    instruction_of(
        raw.encoding,
        match raw.nested {
            Some(items) => program_of::<K>(items),
            None => None,
        },
    )
}

/// The program of version `K` that decoded instructions are read as: each
/// of them read by `outline_of`, and nothing where one of them cannot be.
pub open spec fn program_of<K: Kind>(items: Seq<RawInstruction>) -> Option<Seq<Outline<K>>>
    decreases items,
{
    if items.len() == 0 {
        Some(Seq::empty())
    } else {
        match (program_of::<K>(items.drop_last()), outline_of::<K>(items.last())) {
            (Some(front), Some(last)) => Some(front.push(last)),
            _ => None,
        }
    }
}

/// The message that a decoded message is read as.
pub open spec fn message_of(raw: RawMessage) -> Option<Message> {
    match raw {
        RawMessage::V2(items) => match program_of::<crate::xcm_v2::Plain>(items) {
            Some(program) => Some(Message::V2(program)),
            None => None,
        },
        RawMessage::V3(items) => match program_of::<crate::xcm_v3::Plain>(items) {
            Some(program) => Some(Message::V3(program)),
            None => None,
        },
    }
}

/// The message that a byte sequence stands for, if it stands for one.
pub open spec fn decoded_message(bytes: Seq<u8>) -> Option<Message> {
    match scale_decoded(bytes) {
        Some(raw) => message_of(raw),
        None => None,
    }
}

/// Where a program can be read, so can each of its prefixes.
pub proof fn lemma_program_of_prefix<K: Kind>(items: Seq<RawInstruction>, len: int)
    requires
        0 <= len <= items.len(),
        program_of::<K>(items) is Some,
    ensures
        program_of::<K>(items.take(len)) is Some,
    decreases items.len(),
{
    if len == items.len() {
        assert(items.take(len) =~= items);
    } else {
        lemma_program_of_prefix::<K>(items.drop_last(), len);
        assert(items.drop_last().take(len) =~= items.take(len));
    }
}

/// A decoded program of either version, by reference.
enum ProgramRef<'a> {
    V2(&'a staging_xcm::v2::Xcm<()>),
    V3(&'a staging_xcm::v3::Xcm<()>),
}

impl<'a> ProgramRef<'a> {
    /// The instructions that the program holds, in order.
    spec fn items(self) -> Seq<RawInstruction> {
        match self {
            ProgramRef::V2(program) => v2_items(*program),
            ProgramRef::V3(program) => v3_items(*program),
        }
    }

    /// The encoding of each instruction, in order.
    fn encodings(&self) -> (encodings: Vec<Vec<u8>>)
        ensures
            encodings@.len() == self.items().len(),
            forall|i: int|
                0 <= i < encodings@.len() ==> (#[trigger] encodings@[i])@
                    == self.items()[i].encoding,
    {
        match self {
            ProgramRef::V2(program) => v2_encodings(program),
            ProgramRef::V3(program) => v3_encodings(program),
        }
    }

    /// The program that the instruction at `index` holds, if it holds one.
    fn nested(&self, index: usize) -> (nested: Option<ProgramRef<'a>>)
        requires
            index < self.items().len(),
        ensures
            match nested {
                Some(inner) => self.items()[index as int].nested == Some(inner.items()),
                None => self.items()[index as int].nested is None,
            },
    {
        match self {
            ProgramRef::V2(program) => match v2_nested(program, index) {
                Some(inner) => Some(ProgramRef::V2(inner)),
                None => None,
            },
            ProgramRef::V3(program) => match v3_nested(program, index) {
                Some(inner) => Some(ProgramRef::V3(inner)),
                None => None,
            },
        }
    }
}

/// Reading one instruction more: the program so far and the instruction
/// must both be readable.
proof fn lemma_program_of_next<K: Kind>(items: Seq<RawInstruction>, len: int)
    requires
        0 <= len < items.len(),
    ensures
        program_of::<K>(items.take(len + 1)) == match (
            program_of::<K>(items.take(len)),
            outline_of::<K>(items[len]),
        ) {
            (Some(front), Some(last)) => Some(front.push(last)),
            _ => None,
        },
{
    assert(items.take(len + 1).drop_last() =~= items.take(len));
    assert(items.take(len + 1).last() == items[len]);
}

/// Reads a decoded program as a program of version `K`.
fn read_program<K: Kind>(program: ProgramRef) -> (read: Option<Vec<Instruction<K>>>)
    ensures
        match read {
            Some(instructions) => program_of::<K>(program.items()) == Some(
                outlines(instructions@),
            ),
            None => program_of::<K>(program.items()) is None,
        },
    decreases program.items(),
{
    let encodings = program.encodings();
    let mut instructions: Vec<Instruction<K>> = Vec::new();
    let mut i: usize = 0;
    assert(program.items().take(0) =~= Seq::empty());
    while i < encodings.len()
        invariant
            i <= encodings.len(),
            encodings@.len() == program.items().len(),
            forall|j: int|
                0 <= j < encodings@.len() ==> (#[trigger] encodings@[j])@
                    == program.items()[j].encoding,
            program_of::<K>(program.items().take(i as int)) == Some(outlines(instructions@)),
        decreases encodings.len() - i,
    {
        let ghost items = program.items();
        let ghost raw = items[i as int];
        let nested = match program.nested(i) {
            Some(inner) => {
                proof {
                    assert(decreases_to!(items => raw));
                    assert(decreases_to!(raw => raw.nested));
                    assert(decreases_to!(raw.nested => inner.items()));
                }
                read_program::<K>(inner)
            },
            None => None,
        };
        let instruction = assemble::<K>(encodings[i].as_slice(), nested);
        proof {
            assert(encodings@[i as int]@ == raw.encoding);
            assert(outline_of::<K>(raw) == instruction_of::<K>(
                raw.encoding,
                nested_outlines(nested),
            ));
            lemma_program_of_next::<K>(items, i as int);
        }
        match instruction {
            Some(instruction) => {
                proof {
                    lemma_outlines_push(instructions@, instruction);
                }
                instructions.push(instruction);
            },
            None => {
                proof {
                    if program_of::<K>(items) is Some {
                        lemma_program_of_prefix::<K>(items, i + 1);
                    }
                }
                return None;
            },
        }
        i += 1;
    }
    assert(program.items().take(i as int) =~= program.items());
    Some(instructions)
}

/// Reads a message that the `xcm` crate decoded as a message of the
/// library.
pub fn read_message(decoded: &Decoded) -> (read: Option<VersionedMessage>)
    ensures
        match read {
            Some(message) => message_of(decoded.raw()) == Some(message@),
            None => message_of(decoded.raw()) is None,
        },
{
    match decoded {
        Decoded::V2(program) => match read_program::<crate::xcm_v2::Plain>(
            ProgramRef::V2(program),
        ) {
            Some(instructions) => Some(VersionedMessage::V2(instructions)),
            None => None,
        },
        Decoded::V3(program) => match read_program::<crate::xcm_v3::Plain>(
            ProgramRef::V3(program),
        ) {
            Some(instructions) => Some(VersionedMessage::V3(instructions)),
            None => None,
        },
    }
}

/// Decodes a message from its binary encoding. Bytes that follow the
/// message are not read. There is no partial result: the bytes stand for a
/// message as a whole or are refused.
pub fn decode_message(bytes: &[u8]) -> (decoded: Result<VersionedMessage, MessageDecodeError>)
    ensures
        match decoded {
            Ok(message) => decoded_message(bytes@) == Some(message@),
            Err(_) => decoded_message(bytes@) is None,
        },
        bytes@.len() == 0 || (bytes@[0] != 2 && bytes@[0] != 3) ==> decoded is Err,
        decoded matches Ok(VersionedMessage::V2(_)) ==> bytes@[0] == 2,
        decoded matches Ok(VersionedMessage::V3(_)) ==> bytes@[0] == 3,
{
    match decode_versioned(bytes) {
        Some(decoded) => match read_message(&decoded) {
            Some(message) => Ok(message),
            None => Err(MessageDecodeError),
        },
        None => Err(MessageDecodeError),
    }
}

} // verus!
