//! Text as sequences of characters: searching, cutting, comparing and joining.

use vstd::prelude::*;
use vstd::string::*;

verus! {

/// What each of the borrowed pieces of text reads.
pub open spec fn texts(pieces: Seq<&str>) -> Seq<Seq<char>> {
    Seq::new(pieces.len(), |i: int| pieces[i]@)
}

/// What each of the owned pieces of text reads.
pub open spec fn strings(pieces: Seq<String>) -> Seq<Seq<char>> {
    Seq::new(pieces.len(), |i: int| pieces[i]@)
}

/// What an optional piece of text reads.
pub open spec fn optional(piece: Option<String>) -> Option<Seq<char>> {
    match piece {
        Some(text) => Some(text@),
        None => None,
    }
}

/// The characters with the Unicode property `White_Space`.
pub open spec fn is_space(c: char) -> bool {
    let n = c as u32;
    ||| 0x09 <= n <= 0x0d
    ||| n == 0x20
    ||| n == 0x85
    ||| n == 0xa0
    ||| n == 0x1680
    ||| 0x2000 <= n <= 0x200a
    ||| n == 0x2028
    ||| n == 0x2029
    ||| n == 0x202f
    ||| n == 0x205f
    ||| n == 0x3000
}

/// Picks out the character `sep`.
pub open spec fn equals(sep: char) -> spec_fn(char) -> bool {
    |c: char| c == sep
}

/// Picks out white space.
pub open spec fn space() -> spec_fn(char) -> bool {
    |c: char| is_space(c)
}

/// Picks out everything but white space.
pub open spec fn ink() -> spec_fn(char) -> bool {
    |c: char| !is_space(c)
}

/// The position of the first character that `pick` accepts, or the length of
/// `text` where there is none.
pub open spec fn first(text: Seq<char>, pick: spec_fn(char) -> bool) -> nat
    decreases text.len(),
{
    if text.len() == 0 || pick(text[0]) {
        0
    } else {
        1 + first(text.skip(1), pick)
    }
}

/// The position of the last `sep` in `text`, or -1 where there is none.
pub open spec fn last(text: Seq<char>, sep: char) -> int
    decreases text.len(),
{
    if text.len() == 0 {
        -1
    } else if text.last() == sep {
        text.len() - 1
    } else {
        last(text.drop_last(), sep)
    }
}

/// Whether `needle` stands in `text` at position `at`.
pub open spec fn occurs_at(text: Seq<char>, needle: Seq<char>, at: int) -> bool {
    &&& 0 <= at <= text.len() - needle.len()
    &&& text.subrange(at, at + needle.len()) == needle
}

/// Whether `needle` stands anywhere in `text`.
pub open spec fn mentions(text: Seq<char>, needle: Seq<char>) -> bool {
    exists|at: int| occurs_at(text, needle, at)
}

/// Whether any of `needles` stands anywhere in `text`.
pub open spec fn mentions_any(text: Seq<char>, needles: Seq<Seq<char>>) -> bool {
    exists|k: int| 0 <= k < needles.len() && mentions(text, #[trigger] needles[k])
}

/// Whether `text` begins with `prefix`.
pub open spec fn begins_with(text: Seq<char>, prefix: Seq<char>) -> bool {
    occurs_at(text, prefix, 0)
}

/// The pieces of `text` between the occurrences of `sep`: one more than there
/// are occurrences.
pub open spec fn splits(text: Seq<char>, sep: char) -> Seq<Seq<char>>
    decreases text.len(),
{
    let end = first(text, equals(sep));
    if end < text.len() {
        seq![text.take(end as int)] + splits(text.skip(end as int + 1), sep)
    } else {
        seq![text]
    }
}

/// `line` without a carriage return at its end.
pub open spec fn without_return(line: Seq<char>) -> Seq<char> {
    if line.len() > 0 && line.last() == '\r' {
        line.drop_last()
    } else {
        line
    }
}

/// The lines of `text`. A line ends in a newline or in a carriage return and a
/// newline, neither of which belongs to it; the last line may end without.
pub open spec fn lines_of(text: Seq<char>) -> Seq<Seq<char>>
    decreases text.len(),
{
    let end = first(text, equals('\n'));
    if end < text.len() {
        seq![without_return(text.take(end as int))] + lines_of(text.skip(end as int + 1))
    } else if text.len() > 0 {
        seq![text]
    } else {
        seq![]
    }
}

/// `text` without white space at its start.
pub open spec fn without_lead(text: Seq<char>) -> Seq<char> {
    text.skip(first(text, ink()) as int)
}

/// `text` without white space at its end.
pub open spec fn without_trail(text: Seq<char>) -> Seq<char>
    decreases text.len(),
{
    if text.len() > 0 && is_space(text.last()) {
        without_trail(text.drop_last())
    } else {
        text
    }
}

/// `text` without white space at its ends.
pub open spec fn trimmed(text: Seq<char>) -> Seq<char> {
    without_trail(without_lead(text))
}

/// The first run of characters other than white space.
pub open spec fn first_word_of(text: Seq<char>) -> Option<Seq<char>> {
    let start = without_lead(text);
    if start.len() > 0 {
        Some(start.take(first(start, space()) as int))
    } else {
        None
    }
}

/// The text before the first white space, and the text after it. Without white
/// space, all of the text and nothing.
pub open spec fn cut(text: Seq<char>) -> (Seq<char>, Seq<char>) {
    let end = first(text, space());
    if end < text.len() {
        (text.take(end as int), text.skip(end as int + 1))
    } else {
        (text, seq![])
    }
}

/// `pieces` one after the other with `sep` between neighbours.
pub open spec fn joined(pieces: Seq<Seq<char>>, sep: Seq<char>) -> Seq<char>
    decreases pieces.len(),
{
    if pieces.len() == 0 {
        seq![]
    } else if pieces.len() == 1 {
        pieces[0]
    } else {
        joined(pieces.drop_last(), sep) + sep + pieces.last()
    }
}

/// Where the first character that `pick` accepts is at `at`, `first` is `at`.
pub proof fn lemma_first(text: Seq<char>, pick: spec_fn(char) -> bool, at: nat)
    requires
        at <= text.len(),
        forall|j: int| 0 <= j < at ==> !pick(#[trigger] text[j]),
        at < text.len() ==> pick(text[at as int]),
    ensures
        first(text, pick) == at,
    decreases at,
{
    if at > 0 {
        assert(!pick(text[0]));
        let rest = text.skip(1);
        assert forall|j: int| 0 <= j < at - 1 implies !pick(#[trigger] rest[j]) by {
            assert(rest[j] == text[j + 1]);
        }
        lemma_first(rest, pick, (at - 1) as nat);
    }
}

/// What `first` finds: no earlier character is accepted, and the one found is.
pub proof fn lemma_first_finds(text: Seq<char>, pick: spec_fn(char) -> bool)
    ensures
        first(text, pick) <= text.len(),
        forall|j: int| 0 <= j < first(text, pick) ==> !pick(#[trigger] text[j]),
        first(text, pick) < text.len() ==> pick(text[first(text, pick) as int]),
    decreases text.len(),
{
    if text.len() > 0 && !pick(text[0]) {
        let rest = text.skip(1);
        lemma_first_finds(rest, pick);
        assert forall|j: int| 0 <= j < first(text, pick) implies !pick(#[trigger] text[j]) by {
            if j > 0 {
                assert(text[j] == rest[j - 1]);
            }
        }
    }
}

/// Text without the separator is one piece.
pub proof fn lemma_absent(text: Seq<char>, sep: char)
    requires
        !text.contains(sep),
    ensures
        splits(text, sep) == seq![text],
{
    assert forall|j: int| 0 <= j < text.len() implies !equals(sep)(#[trigger] text[j]) by {
        assert(text.contains(text[j]));
    }
    lemma_first(text, equals(sep), text.len());
}

/// A piece that ends in the separator comes first, and the rest is split by itself.
pub proof fn lemma_splits_after(head: Seq<char>, sep: char, tail: Seq<char>)
    requires
        !head.contains(sep),
    ensures
        splits(head + seq![sep] + tail, sep) == seq![head] + splits(tail, sep),
{
    let whole = head + seq![sep] + tail;
    assert forall|j: int| 0 <= j < head.len() implies !equals(sep)(#[trigger] whole[j]) by {
        assert(whole[j] == head[j]);
        assert(head.contains(head[j]));
    }
    assert(whole[head.len() as int] == sep);
    lemma_first(whole, equals(sep), head.len());
    assert(whole.take(head.len() as int) =~= head);
    assert(whole.skip(head.len() as int + 1) =~= tail);
}

/// With none in what follows it, a separator is the last one.
pub proof fn lemma_last_before(head: Seq<char>, sep: char, tail: Seq<char>)
    requires
        !tail.contains(sep),
    ensures
        last(head + seq![sep] + tail, sep) == head.len(),
    decreases tail.len(),
{
    let whole = head + seq![sep] + tail;
    if tail.len() > 0 {
        assert(tail.contains(tail.last()));
        assert(whole.last() == tail.last());
        assert(whole.drop_last() =~= head + seq![sep] + tail.drop_last());
        assert forall|j: int| 0 <= j < tail.len() - 1 implies tail.drop_last()[j] != sep by {
            assert(tail.contains(tail[j]));
        }
        lemma_last_before(head, sep, tail.drop_last());
    }
}

/// Text put in front moves the last separator.
pub proof fn lemma_last_shift(head: Seq<char>, text: Seq<char>, sep: char)
    requires
        last(text, sep) >= 0,
    ensures
        last(head + text, sep) == head.len() + last(text, sep),
        last(text, sep) < text.len(),
    decreases text.len(),
{
    let whole = head + text;
    assert(text.len() > 0);
    assert(whole.last() == text.last());
    if text.last() != sep {
        assert(whole.drop_last() =~= head + text.drop_last());
        lemma_last_shift(head, text.drop_last(), sep);
    }
}

/// Text that ends where a line ends can be read by itself.
pub proof fn lemma_lines_after(head: Seq<char>, tail: Seq<char>)
    requires
        head.len() > 0 ==> head.last() == '\n',
    ensures
        lines_of(head + tail) == lines_of(head) + lines_of(tail),
    decreases head.len(),
{
    let whole = head + tail;
    if head.len() == 0 {
        assert(whole =~= tail);
        assert(lines_of(head) + lines_of(tail) =~= lines_of(tail));
    } else {
        let newline = equals('\n');
        let end = first(head, newline);
        lemma_first_finds(head, newline);
        if end == head.len() {
            assert(!newline(head[head.len() - 1]));
        }
        assert forall|j: int| 0 <= j < end implies !newline(#[trigger] whole[j]) by {
            assert(whole[j] == head[j]);
        }
        assert(whole[end as int] == head[end as int]);
        lemma_first(whole, newline, end);
        let rest = head.skip(end as int + 1);
        assert(whole.take(end as int) =~= head.take(end as int));
        assert(whole.skip(end as int + 1) =~= rest + tail);
        if rest.len() > 0 {
            assert(rest.last() == head.last());
        }
        lemma_lines_after(rest, tail);
        assert(lines_of(whole) =~= lines_of(head) + lines_of(tail));
    }
}

/// Whether every character of `text` is white space.
pub open spec fn is_blank(text: Seq<char>) -> bool {
    forall|i: int| 0 <= i < text.len() ==> is_space(#[trigger] text[i])
}

/// Whether no character of `text` is white space.
pub open spec fn is_solid(text: Seq<char>) -> bool {
    forall|i: int| 0 <= i < text.len() ==> !is_space(#[trigger] text[i])
}

proof fn lemma_trail(text: Seq<char>, pad: Seq<char>)
    requires
        is_solid(text),
        is_blank(pad),
    ensures
        without_trail(text + pad) == text,
    decreases pad.len(),
{
    let whole = text + pad;
    if pad.len() > 0 {
        assert(whole.last() == pad.last());
        assert(whole.drop_last() =~= text + pad.drop_last());
        assert forall|i: int| 0 <= i < pad.len() - 1 implies is_space(
            #[trigger] pad.drop_last()[i],
        ) by {
            assert(is_space(pad[i]));
        }
        lemma_trail(text, pad.drop_last());
    } else {
        assert(whole =~= text);
    }
}

/// White space around text without white space is what trimming removes.
pub proof fn lemma_padding(lead: Seq<char>, text: Seq<char>, trail: Seq<char>)
    requires
        is_blank(lead),
        is_solid(text),
        is_blank(trail),
    ensures
        trimmed(lead + text + trail) == text,
{
    let whole = lead + text + trail;
    if text.len() > 0 {
        assert forall|j: int| 0 <= j < lead.len() implies !ink()(#[trigger] whole[j]) by {
            assert(whole[j] == lead[j]);
        }
        assert(whole[lead.len() as int] == text[0]);
        lemma_first(whole, ink(), lead.len());
        assert(whole.skip(lead.len() as int) =~= text + trail);
        lemma_trail(text, trail);
    } else {
        assert forall|j: int| 0 <= j < whole.len() implies !ink()(#[trigger] whole[j]) by {
            if j < lead.len() {
                assert(whole[j] == lead[j]);
            } else {
                assert(whole[j] == trail[j - lead.len()]);
            }
        }
        lemma_first(whole, ink(), whole.len());
        assert(whole.skip(whole.len() as int) =~= text);
    }
}

/// Text that stands in one of several pieces stands in all of them joined, and
/// where it holds no space it stands there for no other reason.
pub proof fn lemma_joined_mentions(pieces: Seq<Seq<char>>, needle: Seq<char>)
    requires
        needle.len() > 0,
        !needle.contains(' '),
    ensures
        mentions(joined(pieces, seq![' ']), needle) <==> exists|k: int|
            0 <= k < pieces.len() && mentions(#[trigger] pieces[k], needle),
    decreases pieces.len(),
{
    let whole = joined(pieces, seq![' ']);
    if pieces.len() == 0 {
        if mentions(whole, needle) {
            let at = choose|at: int| occurs_at(whole, needle, at);
            assert(at + needle.len() <= 0);
        }
    } else if pieces.len() == 1 {
        assert(whole == pieces[0]);
    } else {
        let front = pieces.drop_last();
        let head = joined(front, seq![' ']);
        let tail = pieces.last();
        lemma_joined_mentions(front, needle);
        assert(whole == head + seq![' '] + tail);
        let n = needle.len() as int;
        let h = head.len() as int;
        if mentions(whole, needle) {
            let at = choose|at: int| occurs_at(whole, needle, at);
            let window = whole.subrange(at, at + n);
            if at + n <= h {
                assert(head.subrange(at, at + n) =~= window);
                assert(occurs_at(head, needle, at));
                let k = choose|k: int| 0 <= k < front.len() && mentions(#[trigger] front[k], needle);
                assert(pieces[k] == front[k]);
            } else if at > h {
                assert(tail.subrange(at - h - 1, at - h - 1 + n) =~= window);
                assert(occurs_at(tail, needle, at - h - 1));
                assert(mentions(pieces[pieces.len() - 1], needle));
            } else {
                assert(window[h - at] == whole[h] == ' ');
                assert(needle[h - at] == ' ');
            }
        }
        if exists|k: int| 0 <= k < pieces.len() && mentions(#[trigger] pieces[k], needle) {
            let k = choose|k: int| 0 <= k < pieces.len() && mentions(#[trigger] pieces[k], needle);
            if k < front.len() {
                assert(front[k] == pieces[k]);
                let at = choose|at: int| occurs_at(head, needle, at);
                assert(whole.subrange(at, at + n) =~= head.subrange(at, at + n));
                assert(occurs_at(whole, needle, at));
            } else {
                let at = choose|at: int| occurs_at(tail, needle, at);
                assert(whole.subrange(at + h + 1, at + h + 1 + n) =~= tail.subrange(at, at + n));
                assert(occurs_at(whole, needle, at + h + 1));
            }
        }
    }
}

/// The characters of `text`, in order.
pub fn characters(text: &str) -> (chars: Vec<char>)
    ensures
        chars@ == text@,
{
    let mut chars: Vec<char> = Vec::new();
    for c in it: text.chars()
        invariant
            chars@ == it.seq().take(it.index() as int),
            it.seq() == text@,
    {
        chars.push(c);
    }
    chars
}

/// Whether `c` is white space.
pub fn is_whitespace(c: char) -> (space: bool)
    ensures
        space == is_space(c),
{
    let n: u32 = c as u32;
    (0x09 <= n && n <= 0x0d) || n == 0x20 || n == 0x85 || n == 0xa0 || n == 0x1680 || (0x2000 <= n
        && n <= 0x200a) || n == 0x2028 || n == 0x2029 || n == 0x202f || n == 0x205f || n == 0x3000
}

/// The position of the first `sep` at or after `from`, or the end.
fn find_char(chars: &Vec<char>, from: usize, sep: char) -> (at: usize)
    requires
        from <= chars@.len(),
    ensures
        from <= at <= chars@.len(),
        at == from + first(chars@.skip(from as int), equals(sep)),
{
    let mut at: usize = from;
    while at < chars.len() && chars[at] != sep
        invariant
            from <= at <= chars@.len(),
            forall|j: int| from <= j < at ==> chars@[j] != sep,
        decreases chars@.len() - at,
    {
        at = at + 1;
    }
    proof {
        lemma_first(chars@.skip(from as int), equals(sep), (at - from) as nat);
    }
    at
}

/// The position of the first white space at or after `from`, or the end.
fn find_space(chars: &Vec<char>, from: usize) -> (at: usize)
    requires
        from <= chars@.len(),
    ensures
        from <= at <= chars@.len(),
        at == from + first(chars@.skip(from as int), space()),
{
    let mut at: usize = from;
    while at < chars.len() && !is_whitespace(chars[at])
        invariant
            from <= at <= chars@.len(),
            forall|j: int| from <= j < at ==> !is_space(chars@[j]),
        decreases chars@.len() - at,
    {
        at = at + 1;
    }
    proof {
        lemma_first(chars@.skip(from as int), space(), (at - from) as nat);
    }
    at
}

/// The position of the first character other than white space, or the end.
fn find_ink(chars: &Vec<char>) -> (at: usize)
    ensures
        at <= chars@.len(),
        at == first(chars@, ink()),
{
    let mut at: usize = 0;
    while at < chars.len() && is_whitespace(chars[at])
        invariant
            at <= chars@.len(),
            forall|j: int| 0 <= j < at ==> is_space(chars@[j]),
        decreases chars@.len() - at,
    {
        at = at + 1;
    }
    proof {
        lemma_first(chars@, ink(), at as nat);
    }
    at
}

/// Whether the characters of `needle` stand in `chars` at `at`.
fn stands_at(chars: &Vec<char>, needle: &Vec<char>, at: usize) -> (yes: bool)
    requires
        at <= chars@.len(),
    ensures
        yes == occurs_at(chars@, needle@, at as int),
{
    if needle.len() > chars.len() - at {
        return false;
    }
    let mut k: usize = 0;
    while k < needle.len()
        invariant
            k <= needle@.len() <= chars.len() - at,
            forall|j: int| 0 <= j < k ==> chars@[at + j] == needle@[j],
        decreases needle@.len() - k,
    {
        if chars[at + k] != needle[k] {
            proof {
                let window = chars@.subrange(at as int, at + needle@.len());
                assert(window[k as int] != needle@[k as int]);
            }
            return false;
        }
        k = k + 1;
    }
    assert(chars@.subrange(at as int, at + needle@.len()) =~= needle@);
    true
}

/// Whether `needle` stands anywhere in `text`.
pub fn contains(text: &str, needle: &str) -> (yes: bool)
    ensures
        yes == mentions(text@, needle@),
{
    let chars = characters(text);
    let wanted = characters(needle);
    let mut at: usize = 0;
    while at <= chars.len() && wanted.len() <= chars.len() - at
        invariant
            chars@ == text@,
            wanted@ == needle@,
            at <= chars@.len() + 1,
            forall|j: int| 0 <= j < at ==> !occurs_at(text@, needle@, j),
        decreases chars@.len() + 1 - at,
    {
        if stands_at(&chars, &wanted, at) {
            assert(occurs_at(text@, needle@, at as int));
            return true;
        }
        if at == chars.len() {
            return false;
        }
        at = at + 1;
    }
    false
}

/// Whether any of `needles` stands anywhere in `text`.
pub fn contains_any(text: &str, needles: &Vec<&str>) -> (yes: bool)
    ensures
        yes == mentions_any(text@, texts(needles@)),
{
    let mut k: usize = 0;
    while k < needles.len()
        invariant
            k <= needles@.len(),
            forall|j: int| 0 <= j < k ==> !mentions(text@, #[trigger] texts(needles@)[j]),
        decreases needles@.len() - k,
    {
        if contains(text, needles[k]) {
            assert(mentions(text@, texts(needles@)[k as int]));
            return true;
        }
        k = k + 1;
    }
    false
}

/// Whether `text` begins with `prefix`.
pub fn starts_with(text: &str, prefix: &str) -> (yes: bool)
    ensures
        yes == begins_with(text@, prefix@),
{
    let chars = characters(text);
    let wanted = characters(prefix);
    stands_at(&chars, &wanted, 0)
}

/// Whether two pieces of text read the same.
pub fn same(left: &str, right: &str) -> (yes: bool)
    ensures
        yes == (left@ == right@),
{
    left.to_string() == right.to_string()
}

/// The pieces of `text` between the occurrences of `sep`.
pub fn split_on<'a>(text: &'a str, sep: char) -> (pieces: Vec<&'a str>)
    ensures
        texts(pieces@) == splits(text@, sep),
{
    let chars = characters(text);
    let mut pieces: Vec<&'a str> = Vec::new();
    let mut start: usize = 0;
    assert(text@.skip(0) =~= text@);
    assert(texts(pieces@) + splits(text@, sep) =~= splits(text@, sep));
    loop
        invariant
            chars@ == text@,
            start <= chars@.len(),
            texts(pieces@) + splits(text@.skip(start as int), sep) == splits(text@, sep),
        decreases chars@.len() - start,
    {
        let end = find_char(&chars, start, sep);
        let ghost rest = text@.skip(start as int);
        let ghost before = texts(pieces@);
        let piece = text.substring_char(start, end);
        pieces.push(piece);
        assert(texts(pieces@) =~= before.push(piece@));
        assert(piece@ =~= rest.take(end - start));
        if end == chars.len() {
            assert(piece@ =~= rest);
            assert(texts(pieces@) =~= before + splits(rest, sep));
            return pieces;
        }
        assert(rest.skip(end - start + 1) =~= text@.skip(end + 1));
        assert(before + splits(rest, sep) =~= texts(pieces@) + splits(text@.skip(end + 1), sep));
        start = end + 1;
    }
}

/// The lines of `text`.
pub fn lines<'a>(text: &'a str) -> (found: Vec<&'a str>)
    ensures
        texts(found@) == lines_of(text@),
{
    let chars = characters(text);
    let mut found: Vec<&'a str> = Vec::new();
    let mut start: usize = 0;
    assert(text@.skip(0) =~= text@);
    assert(texts(found@) + lines_of(text@) =~= lines_of(text@));
    while start < chars.len()
        invariant
            chars@ == text@,
            start <= chars@.len(),
            texts(found@) + lines_of(text@.skip(start as int)) == lines_of(text@),
        decreases chars@.len() - start,
    {
        let end = find_char(&chars, start, '\n');
        let ghost rest = text@.skip(start as int);
        let ghost before = texts(found@);
        if end == chars.len() {
            let line = text.substring_char(start, end);
            found.push(line);
            assert(line@ =~= rest);
            assert(texts(found@) =~= before + lines_of(rest));
            return found;
        }
        let ghost whole = rest.take(end - start);
        let stop: usize = if end > start && chars[end - 1] == '\r' {
            end - 1
        } else {
            end
        };
        let line = text.substring_char(start, stop);
        found.push(line);
        assert(line@ =~= without_return(whole));
        assert(texts(found@) =~= before.push(line@));
        assert(rest.skip(end - start + 1) =~= text@.skip(end + 1));
        assert(before + lines_of(rest) =~= texts(found@) + lines_of(text@.skip(end + 1)));
        start = end + 1;
    }
    assert(texts(found@) + lines_of(text@.skip(start as int)) =~= texts(found@));
    found
}

/// `text` without white space at its ends.
pub fn trim<'a>(text: &'a str) -> (inner: &'a str)
    ensures
        inner@ == trimmed(text@),
{
    let chars = characters(text);
    let start = find_ink(&chars);
    let mut end: usize = chars.len();
    let ghost rest = text@.skip(start as int);
    assert(rest.take(end - start) =~= rest);
    while end > start && is_whitespace(chars[end - 1])
        invariant
            chars@ == text@,
            rest == text@.skip(start as int),
            start <= end <= chars@.len(),
            without_trail(rest.take(end - start)) == without_trail(rest),
        decreases end,
    {
        assert(rest.take(end - start).drop_last() =~= rest.take(end - 1 - start));
        end = end - 1;
    }
    assert(rest.take(end - start) =~= text@.subrange(start as int, end as int));
    text.substring_char(start, end)
}

/// The first run of characters other than white space.
pub fn first_word<'a>(text: &'a str) -> (word: Option<&'a str>)
    ensures
        match word {
            Some(found) => first_word_of(text@) == Some(found@),
            None => first_word_of(text@) is None,
        },
{
    let chars = characters(text);
    let start = find_ink(&chars);
    if start == chars.len() {
        return None;
    }
    let end = find_space(&chars, start);
    let word = text.substring_char(start, end);
    assert(word@ =~= text@.skip(start as int).take(end - start));
    Some(word)
}

/// The text before the first white space, and the text after it. Without white
/// space, all of the text and nothing.
pub fn cut_at_space<'a>(text: &'a str) -> (parts: (&'a str, &'a str))
    ensures
        (parts.0@, parts.1@) == cut(text@),
{
    let chars = characters(text);
    let end = find_space(&chars, 0);
    assert(text@.skip(0) =~= text@);
    let head = text.substring_char(0, end);
    assert(head@ =~= text@.take(end as int));
    let next: usize = if end < chars.len() {
        end + 1
    } else {
        end
    };
    let tail = text.substring_char(next, chars.len());
    assert(tail@ =~= cut(text@).1);
    (head, tail)
}

/// The text before the last `sep`, and the text after it.
pub fn rsplit_once<'a>(text: &'a str, sep: char) -> (parts: Option<(&'a str, &'a str)>)
    ensures
        match parts {
            Some((head, tail)) => {
                let at = last(text@, sep);
                0 <= at < text@.len() && head@ == text@.take(at) && tail@ == text@.skip(at + 1)
            },
            None => last(text@, sep) < 0,
        },
{
    let chars = characters(text);
    let mut end: usize = chars.len();
    assert(text@.take(end as int) =~= text@);
    while end > 0
        invariant
            chars@ == text@,
            end <= chars@.len(),
            last(text@, sep) == last(text@.take(end as int), sep),
        decreases end,
    {
        if chars[end - 1] == sep {
            let head = text.substring_char(0, end - 1);
            let tail = text.substring_char(end, chars.len());
            assert(head@ =~= text@.take(end - 1));
            assert(tail@ =~= text@.skip(end as int));
            return Some((head, tail));
        }
        assert(text@.take(end as int).drop_last() =~= text@.take(end - 1));
        end = end - 1;
    }
    None
}

/// `pieces` one after the other with `sep` between neighbours.
pub fn join(pieces: &Vec<&str>, sep: &str) -> (whole: String)
    ensures
        whole@ == joined(texts(pieces@), sep@),
{
    let mut whole = String::new();
    let mut k: usize = 0;
    while k < pieces.len()
        invariant
            k <= pieces@.len(),
            whole@ == joined(texts(pieces@).take(k as int), sep@),
        decreases pieces@.len() - k,
    {
        let ghost done = texts(pieces@).take(k as int);
        let ghost more = texts(pieces@).take(k + 1);
        assert(more.drop_last() =~= done);
        if k > 0 {
            whole.append(sep);
        }
        whole.append(pieces[k]);
        assert(k == 0 ==> whole@ =~= more[0]);
        k = k + 1;
    }
    assert(texts(pieces@).take(k as int) =~= texts(pieces@));
    whole
}

/// Adds a name at the end of a list.
pub(crate) fn add_name(names: &mut Vec<&'static str>, name: &'static str)
    ensures
        texts(final(names)@) == texts(old(names)@).push(name@),
{
    names.push(name);
    assert(texts(names@) =~= texts(old(names)@).push(name@));
}

} // verus!
