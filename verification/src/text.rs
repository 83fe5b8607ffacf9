//! Operations on text, stated over sequences of characters.

use vstd::prelude::*;
use vstd::string::*;

verus! {

/// A character that has the Unicode property `White_Space`.
pub open spec fn is_white_space(c: char) -> bool {
    let p = c as u32;
    ||| 0x9 <= p <= 0xd
    ||| p == 0x20
    ||| p == 0x85
    ||| p == 0xa0
    ||| p == 0x1680
    ||| 0x2000 <= p <= 0x200a
    ||| p == 0x2028
    ||| p == 0x2029
    ||| p == 0x202f
    ||| p == 0x205f
    ||| p == 0x3000
}

/// `char::is_whitespace`: true of the characters with the Unicode property `White_Space`, and of
/// no others.
pub assume_specification[ char::is_whitespace ](c: char) -> (r: bool)
    ensures
        r == is_white_space(c),
;

/// `String::push`: the character is appended to the text.
pub assume_specification[ String::push ](text: &mut String, c: char)
    ensures
        final(text)@ == old(text)@.push(c),
;

/// The texts of a sequence of strings.
pub open spec fn texts(strings: Seq<String>) -> Seq<Seq<char>> {
    strings.map_values(|s: String| s@)
}

/// The text without the white space in front.
pub open spec fn trimmed_start(text: Seq<char>) -> Seq<char>
    decreases text.len(),
{
    if text.len() > 0 && is_white_space(text[0]) {
        trimmed_start(text.drop_first())
    } else {
        text
    }
}

/// The text without the white space at its end.
pub open spec fn trimmed_end(text: Seq<char>) -> Seq<char>
    decreases text.len(),
{
    if text.len() > 0 && is_white_space(text.last()) {
        trimmed_end(text.drop_last())
    } else {
        text
    }
}

/// The text without the white space at both ends.
pub open spec fn trimmed(text: Seq<char>) -> Seq<char> {
    trimmed_end(trimmed_start(text))
}

/// True of every character but `c`.
pub open spec fn other_than(c: char) -> spec_fn(char) -> bool {
    |x: char| x != c
}

/// The text without any occurrence of `c`.
pub open spec fn without(text: Seq<char>, c: char) -> Seq<char> {
    text.filter(other_than(c))
}

/// The pieces of the text between the occurrences of `sep`, in order.
pub open spec fn split(text: Seq<char>, sep: char) -> Seq<Seq<char>>
    decreases text.len(),
{
    if text.len() == 0 {
        seq![Seq::<char>::empty()]
    } else {
        let pieces = split(text.drop_last(), sep);
        if text.last() == sep {
            pieces.push(Seq::<char>::empty())
        } else {
            pieces.drop_last().push(pieces.last().push(text.last()))
        }
    }
}

/// The pieces in order, with `sep` between one and the next.
pub open spec fn joined(pieces: Seq<Seq<char>>, sep: Seq<char>) -> Seq<char>
    decreases pieces.len(),
{
    if pieces.len() == 0 {
        Seq::<char>::empty()
    } else if pieces.len() == 1 {
        pieces[0]
    } else {
        joined(pieces.drop_last(), sep) + sep + pieces.last()
    }
}

/// The characters of a text.
pub fn chars_of(text: &str) -> (r: Vec<char>)
    ensures
        r@ == text@,
{
    let mut r: Vec<char> = Vec::new();
    for c in it: text.chars()
        invariant
            r@ == it.seq().take(it.index() as int),
            it.seq() == text@,
    {
        r.push(c);
    }
    r
}

/// The text of the characters without the white space at both ends.
pub fn trim(chars: &Vec<char>) -> (r: Vec<char>)
    ensures
        r@ == trimmed(chars@),
{
    let mut from: usize = 0;
    assert(chars@.skip(0) =~= chars@);
    while from < chars.len() && chars[from].is_whitespace()
        invariant
            from <= chars@.len(),
            trimmed_start(chars@) == trimmed_start(chars@.skip(from as int)),
        decreases chars@.len() - from,
    {
        assert(chars@.skip(from as int).drop_first() =~= chars@.skip(from + 1));
        from = from + 1;
    }
    let ghost start = chars@.skip(from as int);
    assert(trimmed_start(chars@) == start);
    let mut to: usize = chars.len();
    assert(start.take(to - from) =~= start);
    while from < to && chars[to - 1].is_whitespace()
        invariant
            from <= to <= chars@.len(),
            start == chars@.skip(from as int),
            trimmed_end(start) == trimmed_end(start.take(to - from)),
        decreases to - from,
    {
        assert(start.take(to - from).last() == chars@[to - 1]);
        assert(start.take(to - from).drop_last() =~= start.take(to - 1 - from));
        to = to - 1;
    }
    assert(trimmed_end(start) == start.take(to - from)) by {
        if from < to {
            assert(start.take(to - from).last() == chars@[to - 1]);
        }
    }
    let mut r: Vec<char> = Vec::new();
    for i in from..to
        invariant
            from <= to <= chars@.len(),
            r@ == chars@.subrange(from as int, i as int),
    {
        r.push(chars[i]);
    }
    assert(r@ =~= start.take(to - from));
    r
}

/// The characters other than `c`, in order.
pub fn remove_char(chars: &Vec<char>, c: char) -> (r: Vec<char>)
    ensures
        r@ == without(chars@, c),
{
    let mut r: Vec<char> = Vec::new();
    proof {
        reveal(Seq::filter);
    }
    for i in 0..chars.len()
        invariant
            r@ == without(chars@.take(i as int), c),
    {
        proof {
            reveal(Seq::filter);
            assert(chars@.take(i + 1).drop_last() =~= chars@.take(i as int));
        }
        if chars[i] != c {
            r.push(chars[i]);
        }
    }
    assert(chars@.take(chars@.len() as int) =~= chars@);
    r
}

/// The pieces between the occurrences of `sep`.
pub fn split_chars(chars: &Vec<char>, sep: char) -> (r: Vec<String>)
    ensures
        texts(r@) == split(chars@, sep),
{
    let mut r: Vec<String> = Vec::new();
    let mut piece = String::new();
    assert(texts(r@).push(piece@) =~= split(chars@.take(0), sep));
    for i in 0..chars.len()
        invariant
            texts(r@).push(piece@) == split(chars@.take(i as int), sep),
    {
        let ghost done = texts(r@);
        let ghost open = piece@;
        assert(chars@.take(i + 1).drop_last() =~= chars@.take(i as int));
        assert(done.push(open).drop_last() =~= done);
        if chars[i] == sep {
            r.push(piece);
            piece = String::new();
            assert(texts(r@) =~= done.push(open));
        } else {
            piece.push(chars[i]);
        }
    }
    assert(chars@.take(chars@.len() as int) =~= chars@);
    let ghost done = texts(r@);
    r.push(piece);
    assert(texts(r@) =~= done.push(piece@));
    r
}

/// The pieces with `sep` between one and the next.
pub fn join(pieces: &Vec<String>, sep: &str) -> (r: String)
    ensures
        r@ == joined(texts(pieces@), sep@),
{
    let mut r = String::new();
    let ghost all = texts(pieces@);
    for i in 0..pieces.len()
        invariant
            all == texts(pieces@),
            r@ == joined(all.take(i as int), sep@),
    {
        assert(all.take(i + 1).drop_last() =~= all.take(i as int));
        assert(all.take(i + 1).last() == pieces@[i as int]@);
        if i > 0 {
            r.append(sep);
        }
        r.append(pieces[i].as_str());
        assert(i == 0 ==> r@ =~= pieces@[0]@);
    }
    assert(all.take(pieces@.len() as int) =~= all);
    r
}

/// Joining the pieces of a split text with the character that it was split at gives the text
/// back.
pub proof fn join_undoes_split(text: Seq<char>, sep: char)
    ensures
        joined(split(text, sep), seq![sep]) == text,
        split(text, sep).len() > 0,
    decreases text.len(),
{
    if text.len() > 0 {
        join_undoes_split(text.drop_last(), sep);
        let pieces = split(text.drop_last(), sep);
        let c = text.last();
        if c == sep {
            assert(pieces.push(Seq::<char>::empty()).drop_last() =~= pieces);
            assert(text.drop_last() + seq![sep] + Seq::<char>::empty() =~= text);
        } else {
            let whole = pieces.drop_last().push(pieces.last().push(c));
            assert(whole.drop_last() =~= pieces.drop_last());
            if pieces.len() == 1 {
                assert(whole[0] =~= text);
            } else {
                let front = joined(pieces.drop_last(), seq![sep]) + seq![sep];
                assert(front + pieces.last().push(c) =~= (front + pieces.last()).push(c));
                assert((front + pieces.last()).push(c) =~= text);
            }
        }
    }
}

/// No piece of a split text holds the character that it was split at.
pub proof fn split_pieces_hold_no_separator(text: Seq<char>, sep: char, i: int)
    requires
        0 <= i < split(text, sep).len(),
    ensures
        !split(text, sep)[i].contains(sep),
    decreases text.len(),
{
    if text.len() > 0 {
        join_undoes_split(text.drop_last(), sep);
        let pieces = split(text.drop_last(), sep);
        let c = text.last();
        if i < pieces.len() {
            split_pieces_hold_no_separator(text.drop_last(), sep, i);
        }
        if c != sep && i == pieces.len() - 1 {
            let piece = pieces.last().push(c);
            assert forall|j: int| 0 <= j < piece.len() implies piece[j] != sep by {
                if j < pieces.last().len() {
                    assert(pieces.last()[j] == piece[j]);
                }
            }
        }
    }
}

/// A text that holds no separator is its own only piece.
pub proof fn split_of_one_piece(text: Seq<char>, sep: char)
    requires
        !text.contains(sep),
    ensures
        split(text, sep) == seq![text],
    decreases text.len(),
{
    if text.len() > 0 {
        assert(text.last() == text[text.len() - 1]);
        assert forall|j: int| 0 <= j < text.drop_last().len() implies text.drop_last()[j]
            != sep by {
            assert(text[j] == text.drop_last()[j]);
        }
        split_of_one_piece(text.drop_last(), sep);
        assert(text.drop_last().push(text.last()) =~= text);
        assert(split(text, sep) =~= seq![text]);
    } else {
        assert(text =~= Seq::<char>::empty());
    }
}

/// Splitting two texts with a separator between them gives the pieces of the first, then those
/// of the second.
pub proof fn split_at_separator(a: Seq<char>, b: Seq<char>, sep: char)
    ensures
        split(a.push(sep) + b, sep) == split(a, sep) + split(b, sep),
    decreases b.len(),
{
    let whole = a.push(sep) + b;
    if b.len() == 0 {
        assert(whole.drop_last() =~= a);
        assert(split(whole, sep) =~= split(a, sep) + split(b, sep));
    } else {
        split_at_separator(a, b.drop_last(), sep);
        join_undoes_split(b.drop_last(), sep);
        assert(whole.drop_last() =~= a.push(sep) + b.drop_last());
        let pieces = split(b.drop_last(), sep);
        assert((split(a, sep) + pieces).last() == pieces.last());
        assert((split(a, sep) + pieces).drop_last() =~= split(a, sep) + pieces.drop_last());
        assert(split(whole, sep) =~= split(a, sep) + split(b, sep));
    }
}

/// Removing a character from two texts in a row removes it from each.
pub proof fn without_distributes(a: Seq<char>, b: Seq<char>, c: char)
    ensures
        without(a + b, c) == without(a, c) + without(b, c),
{
    Seq::filter_distributes_over_add(a, b, other_than(c));
}

/// Removing a character from a text that does not hold it changes nothing.
pub proof fn without_absent(text: Seq<char>, c: char)
    requires
        !text.contains(c),
    ensures
        without(text, c) == text,
    decreases text.len(),
{
    reveal(Seq::filter);
    if text.len() > 0 {
        assert(text.last() == text[text.len() - 1]);
        assert forall|j: int| 0 <= j < text.drop_last().len() implies text.drop_last()[j]
            != c by {
            assert(text[j] == text.drop_last()[j]);
        }
        without_absent(text.drop_last(), c);
        assert(text.drop_last().push(text.last()) =~= text);
    } else {
        assert(without(text, c) =~= text);
    }
}

/// Splitting joined pieces at the character that they were joined with gives the pieces back, as
/// long as none of them holds that character.
pub proof fn split_undoes_join(pieces: Seq<Seq<char>>, sep: char)
    requires
        pieces.len() > 0,
        forall|i: int| 0 <= i < pieces.len() ==> !(#[trigger] pieces[i]).contains(sep),
    ensures
        split(joined(pieces, seq![sep]), sep) == pieces,
    decreases pieces.len(),
{
    let last = pieces.last();
    assert(last == pieces[pieces.len() - 1]);
    split_of_one_piece(last, sep);
    if pieces.len() == 1 {
        assert(pieces =~= seq![last]);
    } else {
        let front = pieces.drop_last();
        assert forall|i: int| 0 <= i < front.len() implies !(#[trigger] front[i]).contains(
            sep,
        ) by {
            assert(front[i] == pieces[i]);
        }
        split_undoes_join(front, sep);
        let text = joined(front, seq![sep]);
        assert(joined(pieces, seq![sep]) =~= text.push(sep) + last);
        split_at_separator(text, last, sep);
        assert(front + seq![last] =~= pieces);
    }
}

/// Every character of the text is white space.
pub open spec fn is_blank(text: Seq<char>) -> bool {
    forall|i: int| 0 <= i < text.len() ==> is_white_space(#[trigger] text[i])
}

/// White space in front of a text that does not begin with any is what trimming its front takes
/// off.
proof fn lemma_trim_front(before: Seq<char>, text: Seq<char>)
    requires
        is_blank(before),
        text.len() > 0,
        !is_white_space(text[0]),
    ensures
        trimmed_start(before + text) == text,
    decreases before.len(),
{
    if before.len() == 0 {
        assert(before + text =~= text);
    } else {
        let rest = before.drop_first();
        assert forall|i: int| 0 <= i < rest.len() implies is_white_space(#[trigger] rest[i]) by {
            assert(rest[i] == before[i + 1]);
        }
        lemma_trim_front(rest, text);
        assert((before + text)[0] == before[0]);
        assert((before + text).drop_first() =~= rest + text);
    }
}

/// White space behind a text that does not end with any is what trimming its end takes off.
proof fn lemma_trim_back(text: Seq<char>, after: Seq<char>)
    requires
        is_blank(after),
        text.len() > 0,
        !is_white_space(text.last()),
    ensures
        trimmed_end(text + after) == text,
    decreases after.len(),
{
    if after.len() == 0 {
        assert(text + after =~= text);
    } else {
        let rest = after.drop_last();
        assert forall|i: int| 0 <= i < rest.len() implies is_white_space(#[trigger] rest[i]) by {
            assert(rest[i] == after[i]);
        }
        lemma_trim_back(text, rest);
        assert((text + after).last() == after[after.len() - 1]);
        assert((text + after).drop_last() =~= text + rest);
    }
}

/// White space around a text that neither begins nor ends with any is what trimming takes off.
pub proof fn trim_takes_off_what_surrounds(before: Seq<char>, text: Seq<char>, after: Seq<char>)
    requires
        is_blank(before),
        is_blank(after),
        text.len() > 0,
        !is_white_space(text[0]),
        !is_white_space(text.last()),
    ensures
        trimmed(before + text + after) == text,
{
    assert(before + text + after =~= before + (text + after));
    assert((text + after)[0] == text[0]);
    lemma_trim_front(before, text + after);
    lemma_trim_back(text, after);
}

/// The texts of strings are those of each string, in order: none is left out and none is changed.
pub proof fn texts_are_those_of_each_string(strings: Seq<String>)
    ensures
        texts(strings).len() == strings.len(),
        forall|i: int| 0 <= i < strings.len() ==> (#[trigger] texts(strings)[i]) == strings[i]@,
{
}

/// Joining puts the separator between what is joined of two parts, and nowhere else: nothing is
/// put around a piece that stands alone, and nothing comes of no pieces.
pub proof fn joined_in_two_parts(a: Seq<Seq<char>>, b: Seq<Seq<char>>, sep: Seq<char>)
    ensures
        a.len() > 0 && b.len() > 0 ==> joined(a + b, sep) == joined(a, sep) + sep + joined(b, sep),
        a.len() == 1 ==> joined(a, sep) == a[0],
        a.len() == 0 ==> joined(a, sep).len() == 0,
    decreases b.len(),
{
    if a.len() > 0 && b.len() > 0 {
        assert((a + b).drop_last() =~= a + b.drop_last());
        if b.len() == 1 {
            assert((a + b).drop_last() =~= a);
        } else {
            joined_in_two_parts(a, b.drop_last(), sep);
            assert(joined(a, sep) + sep + joined(b.drop_last(), sep) + sep + b.last() =~= joined(
                a,
                sep,
            ) + sep + joined(b, sep));
        }
    }
}

/// A character that is removed is gone, however often and wherever it stood; a text of any other
/// characters stays, character for character.
pub proof fn without_removes_every_occurrence(a: Seq<char>, b: Seq<char>, c: char, d: char)
    requires
        d != c,
    ensures
        without(a.push(c) + b, c) == without(a, c) + without(b, c),
        without(a.push(d) + b, c) == without(a, c).push(d) + without(b, c),
        without(Seq::<char>::empty(), c).len() == 0,
        !without(a, c).contains(c),
{
    reveal(Seq::filter);
    without_distributes(a.push(c), b, c);
    without_distributes(a.push(d), b, c);
    assert(a.push(c).drop_last() =~= a);
    assert(a.push(d).drop_last() =~= a);
    assert(without(Seq::<char>::empty(), c) =~= Seq::<char>::empty());
    lemma_without_holds_none(a, c);
}

/// A character that is removed is gone.
proof fn lemma_without_holds_none(text: Seq<char>, c: char)
    ensures
        !without(text, c).contains(c),
    decreases text.len(),
{
    reveal(Seq::filter);
    if text.len() > 0 {
        lemma_without_holds_none(text.drop_last(), c);
        let rest = without(text.drop_last(), c);
        assert forall|i: int| 0 <= i < without(text, c).len() implies without(text, c)[i] != c by {
            if i < rest.len() {
                assert(rest[i] == without(text, c)[i]);
            }
        }
    }
}

/// Nothing is left of white space.
pub proof fn trim_leaves_nothing_of_white_space(text: Seq<char>)
    requires
        is_blank(text),
    ensures
        trimmed(text).len() == 0,
    decreases text.len(),
{
    if text.len() > 0 {
        assert(is_white_space(text[0]));
        let rest = text.drop_first();
        assert forall|i: int| 0 <= i < rest.len() implies is_white_space(#[trigger] rest[i]) by {
            assert(rest[i] == text[i + 1]);
        }
        trim_leaves_nothing_of_white_space(rest);
    }
}

} // verus!
