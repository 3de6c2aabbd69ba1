//! Joining of rendered segments.

use vstd::prelude::*;

verus! {

/// The segments of `parts` in order, with a single comma between neighbours:
/// nothing before the first and nothing after the last.
pub open spec fn joined(parts: Seq<Seq<char>>) -> Seq<char>
    decreases parts.len(),
{
    if parts.len() == 0 {
        Seq::empty()
    } else if parts.len() == 1 {
        parts[0]
    } else {
        joined(parts.drop_last()) + seq![','] + parts.last()
    }
}

/// A text without a comma and without a parenthesis.
pub open spec fn is_word(text: Seq<char>) -> bool {
    forall|i: int|
        0 <= i < text.len() ==> (#[trigger] text[i]) != ',' && text[i] != '(' && text[i] != ')'
}

/// The depth of nesting behind `text`, read from depth `depth`: each
/// opening parenthesis adds one and each closing parenthesis takes one.
pub open spec fn depth_after(text: Seq<char>, depth: int) -> int
    decreases text.len(),
{
    if text.len() == 0 {
        depth
    } else if text.last() == '(' {
        depth_after(text.drop_last(), depth) + 1
    } else if text.last() == ')' {
        depth_after(text.drop_last(), depth) - 1
    } else {
        depth_after(text.drop_last(), depth)
    }
}

/// The number of commas of `text` that stand outside all parentheses, where
/// `text` is read from depth `depth`.
pub open spec fn outer_commas(text: Seq<char>, depth: int) -> nat
    decreases text.len(),
{
    if text.len() == 0 {
        0
    } else if text.last() == ',' && depth_after(text.drop_last(), depth) == 0 {
        outer_commas(text.drop_last(), depth) + 1
    } else {
        outer_commas(text.drop_last(), depth)
    }
}

/// Reading a text in two parts: the second part is read from the depth
/// that the first has left, and the commas add up.
pub proof fn lemma_read_in_parts(first: Seq<char>, second: Seq<char>, depth: int)
    ensures
        depth_after(first + second, depth) == depth_after(second, depth_after(first, depth)),
        outer_commas(first + second, depth) == outer_commas(first, depth) + outer_commas(
            second,
            depth_after(first, depth),
        ),
    decreases second.len(),
{
    if second.len() == 0 {
        assert(first + second =~= first);
    } else {
        lemma_read_in_parts(first, second.drop_last(), depth);
        assert((first + second).drop_last() =~= first + second.drop_last());
        assert((first + second).last() == second.last());
    }
}

/// Reading a single character.
pub proof fn lemma_read_one(c: char, depth: int)
    ensures
        depth_after(seq![c], depth) == if c == '(' {
            depth + 1
        } else if c == ')' {
            depth - 1
        } else {
            depth
        },
        outer_commas(seq![c], depth) == if c == ',' && depth == 0 {
            1nat
        } else {
            0nat
        },
{
    let text = seq![c];
    assert(text.drop_last() =~= Seq::<char>::empty());
    assert(text.last() == c);
    assert(depth_after(text.drop_last(), depth) == depth);
    assert(outer_commas(text.drop_last(), depth) == 0);
}

/// A word leaves the depth as it was and holds no comma.
pub proof fn lemma_read_word(word: Seq<char>, depth: int)
    requires
        is_word(word),
    ensures
        depth_after(word, depth) == depth,
        outer_commas(word, depth) == 0,
    decreases word.len(),
{
    if word.len() > 0 {
        assert(word.last() == word[word.len() - 1]);
        lemma_read_word(word.drop_last(), depth);
    }
}

/// Appends `part` to `acc`, after a comma when `acc` already holds a segment.
pub fn push_segment(acc: &mut String, first: bool, part: &str)
    ensures
        final(acc)@ == if first {
            old(acc)@ + part@
        } else {
            old(acc)@ + seq![','] + part@
        },
{
    if !first {
        proof {
            reveal_strlit(",");
        }
        assert(","@ =~= seq![',']);
        acc.append(",");
    }
    acc.append(part);
}

} // verus!
