//! What holds of searching, cutting and reading text.

use vstd::prelude::*;
use vstd::utf8::*;

use crate::outside::lowered;
use crate::text::{
    begins_with, cut, equals, ink, is_blank, is_solid, is_space, lemma_first, lines_of, mentions,
    occurs_at, space, trimmed, without_trail,
};

verus! {

/// Text that stands between other text is found.
pub proof fn lemma_mentioned(head: Seq<char>, needle: Seq<char>, tail: Seq<char>)
    ensures
        mentions(head + needle + tail, needle),
{
    let whole = head + needle + tail;
    let at = head.len() as int;
    assert(whole.subrange(at, at + needle.len()) =~= needle);
    assert(occurs_at(whole, needle, at));
}

/// Text is found where it stands and nowhere else: finding it means that the whole
/// is some text, then it, then some more.
pub proof fn law_text_is_found_where_it_stands(text: Seq<char>, needle: Seq<char>)
    ensures
        mentions(text, needle) <==> exists|head: Seq<char>, tail: Seq<char>|
            text == #[trigger] (head + needle + tail),
        begins_with(text, needle) <==> exists|tail: Seq<char>| text == #[trigger] (needle + tail),
{
    if mentions(text, needle) {
        let at = choose|at: int| occurs_at(text, needle, at);
        let head = text.take(at);
        let tail = text.skip(at + needle.len());
        assert(text =~= head + needle + tail);
    }
    if exists|head: Seq<char>, tail: Seq<char>| text == #[trigger] (head + needle + tail) {
        let (head, tail) = choose|head: Seq<char>, tail: Seq<char>|
            text == #[trigger] (head + needle + tail);
        lemma_mentioned(head, needle, tail);
    }
    if begins_with(text, needle) {
        assert(text =~= needle + text.skip(needle.len() as int));
    }
    if exists|tail: Seq<char>| text == #[trigger] (needle + tail) {
        let tail = choose|tail: Seq<char>| text == #[trigger] (needle + tail);
        assert(text.subrange(0, needle.len() as int) =~= needle);
    }
}

proof fn lemma_trail_goes(core: Seq<char>, trail: Seq<char>)
    requires
        core.len() > 0 ==> !is_space(core.last()),
        is_blank(trail),
    ensures
        without_trail(core + trail) == core,
    decreases trail.len(),
{
    let whole = core + trail;
    if trail.len() > 0 {
        assert(whole.last() == trail.last());
        let fewer = trail.drop_last();
        assert(whole.drop_last() =~= core + fewer);
        assert forall|i: int| 0 <= i < fewer.len() implies is_space(#[trigger] fewer[i]) by {
            assert(is_space(trail[i]));
        }
        lemma_trail_goes(core, fewer);
    } else {
        assert(whole =~= core);
    }
}

/// Trimming takes white space from both ends, all of it, and nothing else.
pub proof fn law_trimming_takes_the_ends(lead: Seq<char>, core: Seq<char>, trail: Seq<char>)
    requires
        is_blank(lead),
        core.len() > 0 ==> !is_space(core[0]) && !is_space(core.last()),
        is_blank(trail),
    ensures
        trimmed(lead + core + trail) == core,
{
    let whole = lead + core + trail;
    if core.len() > 0 {
        assert forall|j: int| 0 <= j < lead.len() implies !ink()(#[trigger] whole[j]) by {
            assert(whole[j] == lead[j]);
        }
        assert(whole[lead.len() as int] == core[0]);
        lemma_first(whole, ink(), lead.len());
        assert(whole.skip(lead.len() as int) =~= core + trail);
        lemma_trail_goes(core, trail);
    } else {
        assert forall|j: int| 0 <= j < whole.len() implies !ink()(#[trigger] whole[j]) by {
            if j < lead.len() {
                assert(whole[j] == lead[j]);
            } else {
                assert(whole[j] == trail[j - lead.len()]);
            }
        }
        lemma_first(whole, ink(), whole.len());
        assert(whole.skip(whole.len() as int) =~= core);
    }
}

/// A line ends before its newline and before a carriage return in front of that;
/// what follows is read by itself. What no newline ends is a line as it stands.
pub proof fn law_lines_end_at_newlines(line: Seq<char>, rest: Seq<char>)
    requires
        !line.contains('\n'),
    ensures
        lines_of(line + seq!['\r', '\n'] + rest) == seq![line] + lines_of(rest),
        !(line.len() > 0 && line.last() == '\r') ==> lines_of(line + seq!['\n'] + rest)
            == seq![line] + lines_of(rest),
        line.len() > 0 ==> lines_of(line) == seq![line],
        lines_of(seq![]) == Seq::<Seq<char>>::empty(),
{
    let newline = equals('\n');
    let one = line + seq!['\n'] + rest;
    let two = line + seq!['\r', '\n'] + rest;
    assert forall|j: int| 0 <= j < line.len() implies !newline(#[trigger] one[j]) by {
        assert(one[j] == line[j]);
        assert(line.contains(line[j]));
    }
    assert(one[line.len() as int] == '\n');
    lemma_first(one, newline, line.len());
    assert(one.take(line.len() as int) =~= line);
    assert(one.skip(line.len() as int + 1) =~= rest);
    assert forall|j: int| 0 <= j < line.len() + 1 implies !newline(#[trigger] two[j]) by {
        if j < line.len() {
            assert(two[j] == line[j]);
            assert(line.contains(line[j]));
        } else {
            assert(two[j] == '\r');
        }
    }
    assert(two[line.len() as int + 1] == '\n');
    lemma_first(two, newline, line.len() + 1);
    let whole = two.take(line.len() as int + 1);
    assert(whole =~= line.push('\r'));
    assert(whole.drop_last() =~= line);
    assert(two.skip(line.len() as int + 2) =~= rest);
    assert forall|j: int| 0 <= j < line.len() implies !newline(#[trigger] line[j]) by {
        assert(line.contains(line[j]));
    }
    lemma_first(line, newline, line.len());
    lemma_first(Seq::<char>::empty(), newline, 0);
}

/// Lower case changes the letters from A to Z of ASCII text and nothing else.
pub proof fn law_lower_case_changes_capitals(text: Seq<char>)
    requires
        is_ascii_chars(text),
    ensures
        lowered(text).len() == text.len(),
        forall|i: int|
            0 <= i < text.len() ==> #[trigger] lowered(text)[i] as int == if 'A' <= text[i] <= 'Z' {
                text[i] as int - 'A' as int + 'a' as int
            } else {
                text[i] as int
            },
{
}

/// A line is cut at its first white space, which belongs to neither part; what
/// holds none is not cut.
pub proof fn law_lines_are_cut_at_white_space(head: Seq<char>, c: char, tail: Seq<char>)
    requires
        is_solid(head),
        is_space(c),
    ensures
        cut(head + seq![c] + tail) == (head, tail),
        cut(head) == (head, Seq::<char>::empty()),
{
    let whole = head + seq![c] + tail;
    assert forall|j: int| 0 <= j < head.len() implies !space()(#[trigger] whole[j]) by {
        assert(whole[j] == head[j]);
    }
    assert(whole[head.len() as int] == c);
    lemma_first(whole, space(), head.len());
    assert(whole.take(head.len() as int) =~= head);
    assert(whole.skip(head.len() as int + 1) =~= tail);
    lemma_first(head, space(), head.len());
}

} // verus!
