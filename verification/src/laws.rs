//! What holds of every trace.

use vstd::prelude::*;
use crate::decoder::decoded_message;
use crate::hex_text::{hex_decoded, HexDecodeError};
use crate::instruction::{segment, segments, trace, Kind, Outline};
use crate::message::{prefixed, rendered, Message};
use crate::pipeline::{traced, traced_bytes, TraceError};
use crate::text::{
    depth_after, is_word, joined, lemma_read_in_parts, lemma_read_one, lemma_read_word,
    outer_commas,
};
use crate::xcm_v2;
use crate::xcm_v3;

verus! {

/// The trace of a program is the segments of its instructions, one for
/// each instruction and in the order of the program, joined by commas.
pub proof fn lemma_trace_joins_segments<K: Kind>(program: Seq<Outline<K>>)
    ensures
        segments(program).len() == program.len(),
        trace(program) == joined(segments(program)),
    decreases program.len(),
{
    if program.len() > 1 {
        lemma_trace_joins_segments(program.drop_last());
        assert(segments(program).drop_last() =~= segments(program.drop_last()));
    }
}

/// Behind a version marker, a program of N instructions is traced as N
/// further entries: the whole is the marker and the N segments, in the
/// order of the program, joined by commas.
pub proof fn lemma_prefixed_joins_marker_and_segments<K: Kind>(
    marker: Seq<char>,
    program: Seq<Outline<K>>,
)
    ensures
        prefixed(marker, program) == joined(seq![marker] + segments(program)),
        marker.is_prefix_of(prefixed(marker, program)),
    decreases program.len(),
{
    let entries = seq![marker] + segments(program);
    if program.len() == 0 {
        assert(entries =~= seq![marker]);
    } else {
        let front = program.drop_last();
        lemma_prefixed_joins_marker_and_segments(marker, front);
        assert(entries.drop_last() =~= seq![marker] + segments(front));
        assert(entries.last() == segment(program.last()));
        if front.len() == 0 {
            assert(prefixed(marker, program) =~= marker + seq![','] + segment(program.last()));
        } else {
            assert(trace(program) == trace(front) + seq![','] + segment(program.last()));
            assert(prefixed(marker, program) =~= prefixed(marker, front) + seq![',']
                + segment(program.last()));
        }
    }
}

/// The trace of a version 2 message of N instructions begins with `v2` and
/// goes on with N entries, each a comma and the segment of one instruction,
/// in the order of the message.
pub proof fn lemma_v2_trace(program: Seq<Outline<xcm_v2::Plain>>)
    ensures
        rendered(Message::V2(program)) == joined(seq![seq!['v', '2']] + segments(program)),
        seq!['v', '2'].is_prefix_of(rendered(Message::V2(program))),
        segments(program).len() == program.len(),
{
    reveal_strlit("v2");
    assert("v2"@ =~= seq!['v', '2']);
    lemma_prefixed_joins_marker_and_segments("v2"@, program);
}

/// The trace of a version 3 message of N instructions begins with `v3` and
/// goes on with N entries, each a comma and the segment of one instruction,
/// in the order of the message.
pub proof fn lemma_v3_trace(program: Seq<Outline<xcm_v3::Plain>>)
    ensures
        rendered(Message::V3(program)) == joined(seq![seq!['v', '3']] + segments(program)),
        seq!['v', '3'].is_prefix_of(rendered(Message::V3(program))),
        segments(program).len() == program.len(),
{
    reveal_strlit("v3");
    assert("v3"@ =~= seq!['v', '3']);
    lemma_prefixed_joins_marker_and_segments("v3"@, program);
}

/// A hex text that stands for a version 2 message of N instructions is
/// traced as `v2` and the N segments of the message, joined by commas.
pub proof fn lemma_v2_input_trace(text: Seq<u8>, program: Seq<Outline<xcm_v2::Plain>>)
    requires
        hex_decoded(text) matches Ok(bytes) && decoded_message(bytes) == Some(
            Message::V2(program),
        ),
    ensures
        traced(text) == Ok::<Seq<char>, TraceError>(
            joined(seq![seq!['v', '2']] + segments(program)),
        ),
{
    lemma_v2_trace(program);
}

/// The commas that separate the instructions of a program, where the
/// program is read from depth `depth`: one less than there are
/// instructions where it stands outside all parentheses, none inside them.
pub open spec fn separators(instructions: nat, depth: int) -> nat {
    if depth == 0 && instructions > 0 {
        (instructions - 1) as nat
    } else {
        0
    }
}

/// A segment closes every parenthesis that it opens, and holds no comma
/// outside its own parentheses.
pub proof fn lemma_segment_is_one_entry<K: Kind>(instruction: Outline<K>, depth: int)
    requires
        depth >= 0,
    ensures
        depth_after(segment(instruction), depth) == depth,
        outer_commas(segment(instruction), depth) == 0,
    decreases instruction,
{
    match instruction {
        Outline::Plain(kind) => {
            kind.lemma_tag_is_word();
            lemma_read_word(kind.tag(), depth);
        },
        Outline::SetErrorHandler(program) => {
            reveal_strlit("SetErrorHandler");
            lemma_trace_separators(program, depth + 1);
            lemma_enclosed_is_one_entry("SetErrorHandler"@, trace(program), depth);
        },
        Outline::SetAppendix(program) => {
            reveal_strlit("SetAppendix");
            lemma_trace_separators(program, depth + 1);
            lemma_enclosed_is_one_entry("SetAppendix"@, trace(program), depth);
        },
    }
}

/// A tag with a text in parentheses behind it is one entry, where the text
/// closes its own parentheses and holds no comma outside them.
proof fn lemma_enclosed_is_one_entry(tag: Seq<char>, inner: Seq<char>, depth: int)
    requires
        depth >= 0,
        is_word(tag),
        depth_after(inner, depth + 1) == depth + 1,
        outer_commas(inner, depth + 1) == 0,
    ensures
        depth_after(tag + seq!['('] + inner + seq![')'], depth) == depth,
        outer_commas(tag + seq!['('] + inner + seq![')'], depth) == 0,
{
    let open = seq!['('];
    let close = seq![')'];
    lemma_read_word(tag, depth);
    lemma_read_one('(', depth);
    lemma_read_one(')', depth + 1);
    lemma_read_in_parts(tag, open, depth);
    lemma_read_in_parts(tag + open, inner, depth);
    lemma_read_in_parts(tag + open + inner, close, depth);
}

/// The trace of a program closes every parenthesis that it opens, and the
/// commas outside its parentheses are those between its instructions.
pub proof fn lemma_trace_separators<K: Kind>(program: Seq<Outline<K>>, depth: int)
    requires
        depth >= 0,
    ensures
        depth_after(trace(program), depth) == depth,
        outer_commas(trace(program), depth) == separators(program.len(), depth),
    decreases program,
{
    if program.len() == 0 {
    } else if program.len() == 1 {
        lemma_segment_is_one_entry(program[0], depth);
    } else {
        let front = trace(program.drop_last());
        let comma = seq![','];
        let last = segment(program.last());
        lemma_trace_separators(program.drop_last(), depth);
        lemma_segment_is_one_entry(program.last(), depth);
        lemma_read_one(',', depth);
        lemma_read_in_parts(front, comma, depth);
        lemma_read_in_parts(front + comma, last, depth);
    }
}

/// Behind a marker that is a word, the trace of a program of N
/// instructions holds exactly N commas outside parentheses: one before each
/// instruction.
pub proof fn lemma_prefixed_counts_instructions<K: Kind>(
    marker: Seq<char>,
    program: Seq<Outline<K>>,
)
    requires
        is_word(marker),
    ensures
        depth_after(prefixed(marker, program), 0) == 0,
        outer_commas(prefixed(marker, program), 0) == program.len(),
{
    lemma_read_word(marker, 0);
    if program.len() > 0 {
        let comma = seq![','];
        lemma_trace_separators(program, 0);
        lemma_read_one(',', 0);
        lemma_read_in_parts(marker, comma, 0);
        lemma_read_in_parts(marker + comma, trace(program), 0);
    }
}

/// The trace of a message of N instructions holds exactly N commas outside
/// parentheses, whatever its version: the marker and N instructions are
/// its N + 1 entries.
pub proof fn lemma_trace_counts_instructions(message: Message)
    ensures
        outer_commas(rendered(message), 0) == match message {
            Message::V2(program) => program.len(),
            Message::V3(program) => program.len(),
        },
{
    reveal_strlit("v2");
    reveal_strlit("v3");
    match message {
        Message::V2(program) => lemma_prefixed_counts_instructions("v2"@, program),
        Message::V3(program) => lemma_prefixed_counts_instructions("v3"@, program),
    }
}

/// A hex text that stands for a version 3 message of N instructions is
/// traced as `v3` and the N segments of the message, joined by commas.
pub proof fn lemma_v3_input_trace(text: Seq<u8>, program: Seq<Outline<xcm_v3::Plain>>)
    requires
        hex_decoded(text) matches Ok(bytes) && decoded_message(bytes) == Some(
            Message::V3(program),
        ),
    ensures
        traced(text) == Ok::<Seq<char>, TraceError>(
            joined(seq![seq!['v', '3']] + segments(program)),
        ),
{
    lemma_v3_trace(program);
}

/// A trace depends on the values of the bytes and on nothing else: two
/// inputs of the same bytes have the same trace, or the same error.
pub proof fn lemma_same_bytes_same_trace(first: Seq<u8>, second: Seq<u8>)
    requires
        first.len() == second.len(),
        forall|i: int| 0 <= i < first.len() ==> first[i] == second[i],
    ensures
        traced_bytes(first) == traced_bytes(second),
        traced(first) == traced(second),
{
    assert(first =~= second);
}

/// A message without instructions is traced as the marker of its version,
/// with no comma behind it.
pub proof fn lemma_empty_message()
    ensures
        rendered(Message::V2(Seq::empty())) == seq!['v', '2'],
        rendered(Message::V3(Seq::empty())) == seq!['v', '3'],
{
    reveal_strlit("v2");
    reveal_strlit("v3");
    assert("v2"@ =~= seq!['v', '2']);
    assert("v3"@ =~= seq!['v', '3']);
}

/// A text of odd length has no trace, whatever it holds: it is refused as
/// not being hex, and nothing of it is read as a message.
pub proof fn lemma_odd_length_is_refused(text: Seq<u8>)
    requires
        text.len() % 2 == 1,
    ensures
        traced(text) == Err::<Seq<char>, TraceError>(
            TraceError::HexDecode(HexDecodeError::OddLength),
        ),
{
}

} // verus!
