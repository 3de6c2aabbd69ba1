//! Instructions as the trace reads them, and their rendering.

use vstd::prelude::*;
use crate::text::{is_word, push_segment};

verus! {

/// The instructions of one protocol version that hold no nested program:
/// a closed set, each with one fixed textual tag.
pub trait Kind: Copy {
    /// The textual tag of this kind.
    spec fn tag(self) -> Seq<char>;

    /// The discriminant of this kind: the byte that stands for it at the
    /// start of an encoded instruction.
    spec fn discriminant(self) -> u8;

    /// The textual tag of this kind.
    fn name(self) -> (text: &'static str)
        ensures
            text@ == self.tag(),
    ;

    /// The kind with the given discriminant, if there is one.
    fn from_discriminant(discriminant: u8) -> (kind: Option<Self>)
        ensures
            match kind {
                Some(kind) => kind.discriminant() == discriminant,
                None => forall|other: Self| other.discriminant() != discriminant,
            },
    ;

    /// A tag holds no comma and no parenthesis.
    proof fn lemma_tag_is_word(self)
        ensures
            is_word(self.tag()),
    ;

    /// No two kinds share a discriminant, and none has that of one of the
    /// two instructions that hold a program.
    proof fn lemma_discriminants(self, other: Self)
        ensures
            self.discriminant() == other.discriminant() ==> self == other,
            self.discriminant() != SET_ERROR_HANDLER,
            self.discriminant() != SET_APPENDIX,
    ;
}

/// The discriminant of the instruction that sets the error handler.
pub const SET_ERROR_HANDLER: u8 = 21;

/// The discriminant of the instruction that sets the appendix.
pub const SET_APPENDIX: u8 = 22;

/// One instruction of a message. Operands that the trace does not read are
/// left out; the two instructions that hold a program keep it.
#[derive(Debug, PartialEq, Eq)]
pub enum Instruction<K> {
    /// An instruction without a nested program.
    Plain(K),
    /// Sets the program to run when an error occurs.
    SetErrorHandler(Vec<Instruction<K>>),
    /// Sets the program to run after the current one.
    SetAppendix(Vec<Instruction<K>>),
}

/// The mathematical model of an `Instruction`.
pub enum Outline<K> {
    Plain(K),
    SetErrorHandler(Seq<Outline<K>>),
    SetAppendix(Seq<Outline<K>>),
}

impl<K> View for Instruction<K> {
    type V = Outline<K>;

    open spec fn view(&self) -> Outline<K>
        decreases self,
    {
        match self {
            Instruction::Plain(kind) => Outline::Plain(*kind),
            Instruction::SetErrorHandler(program) => Outline::SetErrorHandler(outlines(program@)),
            Instruction::SetAppendix(program) => Outline::SetAppendix(outlines(program@)),
        }
    }
}

/// The models of the instructions of `program`, in order.
pub open spec fn outlines<K>(program: Seq<Instruction<K>>) -> Seq<Outline<K>>
    decreases program,
{
    if program.len() == 0 {
        Seq::empty()
    } else {
        outlines(program.drop_last()).push(program.last()@)
    }
}

/// The kind with the given discriminant, if there is one.
pub open spec fn kind_of<K: Kind>(discriminant: u8) -> Option<K> {
    if exists|kind: K| kind.discriminant() == discriminant {
        Some(choose|kind: K| kind.discriminant() == discriminant)
    } else {
        None
    }
}

/// The instruction that an encoding stands for, given the program that it
/// holds as its operand, if it holds one. The first byte of the encoding is
/// the discriminant, and it alone is read. There is no instruction for an
/// empty encoding, for a discriminant that the version does not define, or
/// for one of the two instructions that hold a program where none is given.
pub open spec fn instruction_of<K: Kind>(
    encoding: Seq<u8>,
    nested: Option<Seq<Outline<K>>>,
) -> Option<Outline<K>> {
    if encoding.len() == 0 {
        None
    } else if encoding[0] == SET_ERROR_HANDLER {
        match nested {
            Some(program) => Some(Outline::SetErrorHandler(program)),
            None => None,
        }
    } else if encoding[0] == SET_APPENDIX {
        match nested {
            Some(program) => Some(Outline::SetAppendix(program)),
            None => None,
        }
    } else {
        match kind_of::<K>(encoding[0]) {
            Some(kind) => Some(Outline::Plain(kind)),
            None => None,
        }
    }
}

/// The model of an optional program.
pub open spec fn nested_outlines<K>(nested: Option<Vec<Instruction<K>>>) -> Option<
    Seq<Outline<K>>,
> {
    match nested {
        Some(program) => Some(outlines(program@)),
        None => None,
    }
}

/// Builds the instruction that `encoding` stands for; `nested` is the
/// program that it holds as its operand, if it holds one.
pub fn assemble<K: Kind>(encoding: &[u8], nested: Option<Vec<Instruction<K>>>) -> (instruction:
    Option<Instruction<K>>)
    ensures
        match instruction {
            Some(instruction) => instruction_of::<K>(encoding@, nested_outlines(nested)) == Some(
                instruction@,
            ),
            None => instruction_of::<K>(encoding@, nested_outlines(nested)) is None,
        },
{
    if encoding.len() == 0 {
        return None;
    }
    let discriminant = encoding[0];
    if discriminant == SET_ERROR_HANDLER {
        match nested {
            Some(program) => Some(Instruction::SetErrorHandler(program)),
            None => None,
        }
    } else if discriminant == SET_APPENDIX {
        match nested {
            Some(program) => Some(Instruction::SetAppendix(program)),
            None => None,
        }
    } else {
        match K::from_discriminant(discriminant) {
            Some(kind) => {
                proof {
                    kind.lemma_discriminants(kind_of::<K>(discriminant).unwrap());
                }
                Some(Instruction::Plain(kind))
            },
            None => None,
        }
    }
}

/// The rendering of one instruction: its tag, and for the two instructions
/// that hold a program the trace of that program in parentheses, directly
/// after the tag.
pub open spec fn segment<K: Kind>(instruction: Outline<K>) -> Seq<char>
    decreases instruction,
{
    match instruction {
        Outline::Plain(kind) => kind.tag(),
        Outline::SetErrorHandler(program) => "SetErrorHandler"@ + seq!['('] + trace(program) + seq![
            ')',
        ],
        Outline::SetAppendix(program) => "SetAppendix"@ + seq!['('] + trace(program) + seq![')'],
    }
}

/// The trace of a program: the segments of its instructions in order, with
/// a single comma between neighbours. The empty program has the empty trace.
pub open spec fn trace<K: Kind>(program: Seq<Outline<K>>) -> Seq<char>
    decreases program,
{
    if program.len() == 0 {
        Seq::empty()
    } else if program.len() == 1 {
        segment(program[0])
    } else {
        trace(program.drop_last()) + seq![','] + segment(program.last())
    }
}

/// The segments of the instructions of a program, in order.
pub open spec fn segments<K: Kind>(program: Seq<Outline<K>>) -> Seq<Seq<char>> {
    Seq::new(program.len(), |i: int| segment(program[i]))
}

/// `outlines` follows a program as it grows by one instruction.
pub proof fn lemma_outlines_push<K>(program: Seq<Instruction<K>>, next: Instruction<K>)
    ensures
        outlines(program.push(next)) == outlines(program).push(next@),
{
    assert(program.push(next).drop_last() =~= program);
}

/// `outlines` keeps the length and models each instruction in its place.
pub proof fn lemma_outlines_index<K>(program: Seq<Instruction<K>>)
    ensures
        outlines(program).len() == program.len(),
        forall|i: int| 0 <= i < program.len() ==> (#[trigger] outlines(program)[i]) == program[i]@,
    decreases program.len(),
{
    if program.len() > 0 {
        let front = program.drop_last();
        lemma_outlines_index(front);
        assert(outlines(program) == outlines(front).push(program.last()@));
        assert forall|i: int| 0 <= i < program.len() implies (#[trigger] outlines(program)[i])
            == program[i]@ by {
            if i < front.len() {
                assert(front[i] == program[i]);
            }
        }
    }
}

/// Renders one instruction.
pub fn render<K: Kind>(instruction: &Instruction<K>) -> (out: String)
    ensures
        out@ == segment(instruction@),
    decreases instruction,
{
    match instruction {
        Instruction::Plain(kind) => String::from_str(kind.name()),
        Instruction::SetErrorHandler(program) => {
            let inner = stringize(program);
            enclose("SetErrorHandler", inner.as_str())
        },
        Instruction::SetAppendix(program) => {
            let inner = stringize(program);
            enclose("SetAppendix", inner.as_str())
        },
    }
}

/// `tag`, then `inner` in parentheses.
fn enclose(tag: &str, inner: &str) -> (out: String)
    ensures
        out@ == tag@ + seq!['('] + inner@ + seq![')'],
{
    proof {
        reveal_strlit("(");
        reveal_strlit(")");
    }
    assert("("@ =~= seq!['(']);
    assert(")"@ =~= seq![')']);
    let mut out = String::from_str(tag);
    out.append("(");
    out.append(inner);
    out.append(")");
    out
}

/// Renders the trace of a program, without a version prefix: this is also
/// what stands inside the parentheses of a nested program.
pub fn stringize<K: Kind>(xcm: &Vec<Instruction<K>>) -> (out: String)
    ensures
        out@ == trace(outlines(xcm@)),
    decreases xcm,
{
    let mut out = String::new();
    let mut i: usize = 0;
    while i < xcm.len()
        invariant
            i <= xcm.len(),
            out@ == trace(outlines(xcm@.take(i as int))),
        decreases xcm.len() - i,
    {
        let part = render(&xcm[i]);
        push_segment(&mut out, i == 0, part.as_str());
        proof {
            let done = xcm@.take(i as int);
            assert(xcm@.take(i + 1) =~= done.push(xcm@[i as int]));
            lemma_outlines_push(done, xcm@[i as int]);
            lemma_outlines_index(done);
            assert(outlines(done).push(xcm@[i as int]@).drop_last() =~= outlines(done));
        }
        i += 1;
    }
    assert(xcm@.take(i as int) =~= xcm@);
    out
}

} // verus!
