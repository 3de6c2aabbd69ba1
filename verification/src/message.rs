//! Versioned messages and their traces.

use vstd::prelude::*;
use crate::instruction::{lemma_outlines_index, outlines, trace, Kind, Outline};
use crate::text::push_segment;
use crate::xcm_v2;
use crate::xcm_v3;

verus! {

/// A decoded message: a program of one of the supported versions.
#[derive(Debug, PartialEq, Eq)]
pub enum VersionedMessage {
    V2(xcm_v2::Program),
    V3(xcm_v3::Program),
}

/// The mathematical model of a `VersionedMessage`.
pub enum Message {
    V2(Seq<Outline<xcm_v2::Plain>>),
    V3(Seq<Outline<xcm_v3::Plain>>),
}

impl View for VersionedMessage {
    type V = Message;

    open spec fn view(&self) -> Message {
        match self {
            VersionedMessage::V2(program) => Message::V2(outlines(program@)),
            VersionedMessage::V3(program) => Message::V3(outlines(program@)),
        }
    }
}

/// The marker of a version, then a comma and the segment of each
/// instruction of the program, in order. An empty program leaves the marker
/// alone.
pub open spec fn prefixed<K: Kind>(marker: Seq<char>, program: Seq<Outline<K>>) -> Seq<char> {
    if program.len() == 0 {
        marker
    } else {
        marker + seq![','] + trace(program)
    }
}

/// The trace of a message: the marker of the version that it is written
/// in, `v2` or `v3`, followed by the trace of its program.
pub open spec fn rendered(message: Message) -> Seq<char> {
    match message {
        Message::V2(program) => prefixed("v2"@, program),
        Message::V3(program) => prefixed("v3"@, program),
    }
}

/// Renders the trace of a message.
pub fn render_message(message: &VersionedMessage) -> (out: String)
    ensures
        out@ == rendered(message@),
{
    match message {
        VersionedMessage::V2(program) => {
            proof {
                lemma_outlines_index(program@);
            }
            let mut out = String::from_str("v2");
            if program.len() > 0 {
                let body = xcm_v2::stringize_v2_xcm(program);
                push_segment(&mut out, false, body.as_str());
            }
            out
        },
        VersionedMessage::V3(program) => {
            proof {
                lemma_outlines_index(program@);
            }
            let mut out = String::from_str("v3");
            if program.len() > 0 {
                let body = xcm_v3::stringize_v3_xcm(program);
                push_segment(&mut out, false, body.as_str());
            }
            out
        },
    }
}

} // verus!
