//! The results of a build, as the server reports them.

use crate::error::FromZmqError;
use crate::message::{
    contents, first_text, frames, leading_text, leading_text_is_that_of_the_first_frame,
    text_survives_the_wire,
};
use crate::text::{
    chars_of, is_blank, is_white_space, remove_char, split, split_at_separator, split_chars,
    split_of_one_piece, texts, trim, trim_takes_off_what_surrounds, trimmed, without,
    without_absent, without_distributes,
};
use vstd::prelude::*;
use vstd::string::*;
use vstd::utf8::*;
use zeromq::ZmqMessage;

verus! {

/// What the server has built: the simulation executable and the file that configures it.
pub struct BuildModelResults {
    /// The path of the simulation executable.
    pub exec_path: String,
    /// The name of the XML file, in the directory of the executable.
    pub xml_file_name: String,
}

/// Values that can be read from a message.
pub trait FromZmq: Sized {
    /// The messages that `from_zmq` may be handed.
    spec fn readable(input: ZmqMessage) -> bool;

    /// Parses a ZMQ message to return a value of this type.
    fn from_zmq(input: ZmqMessage) -> (r: Result<Self, FromZmqError>)
        requires
            Self::readable(input),
    ;
}

/// The text without the white space around it and without any quotation mark.
pub open spec fn unquoted(text: Seq<char>) -> Seq<char> {
    without(trimmed(text), '"')
}

/// A character that takes one byte in UTF-8.
pub open spec fn is_one_byte(c: char) -> bool {
    (c as u32) <= 0x7f
}

/// The text has a first and a last character, each of one byte, which can be taken off.
pub open spec fn has_delimiters(text: Seq<char>) -> bool {
    text.len() >= 2 && is_one_byte(text[0]) && is_one_byte(text.last())
}

/// The elements of a text that the server writes as an array: what stands between the commas,
/// inside the delimiters.
pub open spec fn array_elements(text: Seq<char>) -> Seq<Seq<char>> {
    let array = unquoted(text);
    split(array.subrange(1, array.len() - 1), ',')
}

/// The executable and the XML file that a reply names, where it names both.
pub open spec fn build_results(reply: Seq<Seq<u8>>) -> Option<(Seq<char>, Seq<char>)> {
    match leading_text(reply) {
        Some(text) => {
            let elements = array_elements(text);
            if elements.len() >= 2 {
                Some((elements[0], elements[1]))
            } else {
                None
            }
        },
        None => None,
    }
}

/// The reply either is no text, or is a text with delimiters that can be taken off.
pub open spec fn is_array_reply(reply: Seq<Seq<u8>>) -> bool {
    match leading_text(reply) {
        Some(text) => has_delimiters(unquoted(text)),
        None => true,
    }
}

/// The characters of a text without the white space around it and without quotation marks.
fn unquote(text: &String) -> (r: Vec<char>)
    ensures
        r@ == unquoted(text@),
{
    remove_char(&trim(&chars_of(text.as_str())), '"')
}

impl BuildModelResults {
    /// Whether `from_zmq` may be handed the message: a text that it holds must have, once white
    /// space and quotation marks are gone, a one-byte character at either end.
    pub fn is_readable(message: &ZmqMessage) -> (r: bool)
        ensures
            r == Self::readable(*message),
    {
        match first_text(message) {
            Some(text) => {
                let array = unquote(&text);
                let n: usize = array.len();
                n >= 2 && (array[0] as u32) <= 0x7f && (array[n - 1] as u32) <= 0x7f
            },
            None => true,
        }
    }
}

impl FromZmq for BuildModelResults {
    open spec fn readable(input: ZmqMessage) -> bool {
        is_array_reply(frames(input))
    }

    fn from_zmq(input: ZmqMessage) -> (r: Result<Self, FromZmqError>)
        ensures
            r is Ok <==> build_results(frames(input)) is Some,
            r matches Ok(results) ==> build_results(frames(input)) == Some(
                (results.exec_path@, results.xml_file_name@),
            ),
            r matches Err(e) ==> e is BuildModelResultsParseError && contents(
                e->BuildModelResultsParseError_bytes@,
            ) == frames(input),
    {
        match first_text(&input) {
            Some(text) => {
                let array = unquote(&text);
                let mut inner: Vec<char> = Vec::new();
                for i in 1..(array.len() - 1)
                    invariant
                        2 <= array@.len(),
                        inner@ == array@.subrange(1, i as int),
                {
                    inner.push(array[i]);
                }
                let elements = split_chars(&inner, ',');
                assert(texts(elements@) == array_elements(text@));
                if elements.len() >= 2 {
                    assert(texts(elements@)[0] == elements@[0]@);
                    assert(texts(elements@)[1] == elements@[1]@);
                    return Ok(
                        BuildModelResults {
                            exec_path: elements[0].clone(),
                            xml_file_name: elements[1].clone(),
                        },
                    );
                }
            },
            None => {},
        }
        Err(FromZmqError::BuildModelResultsParseError { bytes: input.into_vec() })
    }
}

/// The array in which the server reports an executable and an XML file.
pub open spec fn build_array(exec_path: Seq<char>, xml_file_name: Seq<char>) -> Seq<char> {
    "{\""@ + exec_path + "\",\""@ + xml_file_name + "\"}"@
}

/// The text in which the server reports an executable and an XML file: the array on a line.
pub open spec fn build_reply(exec_path: Seq<char>, xml_file_name: Seq<char>) -> Seq<char> {
    build_array(exec_path, xml_file_name) + "\n"@
}

/// Without its quotation marks, the array holds the two names with one comma between.
proof fn lemma_array_is_unquoted(exec_path: Seq<char>, xml_file_name: Seq<char>)
    requires
        !exec_path.contains('"'),
        !xml_file_name.contains('"'),
    ensures
        without(build_array(exec_path, xml_file_name), '"') == seq!['{'] + exec_path + seq![',']
            + xml_file_name + seq!['}'],
{
    reveal_strlit("{\"");
    reveal_strlit("\",\"");
    reveal_strlit("\"}");
    let open = "{\""@;
    let middle = "\",\""@;
    let close = "\"}"@;
    without_distributes(open + exec_path + middle + xml_file_name, close, '"');
    without_distributes(open + exec_path + middle, xml_file_name, '"');
    without_distributes(open + exec_path, middle, '"');
    without_distributes(open, exec_path, '"');
    without_absent(exec_path, '"');
    without_absent(xml_file_name, '"');
    assert(without(open, '"') =~= seq!['{'] && without(middle, '"') =~= seq![','] && without(
        close,
        '"',
    ) =~= seq!['}']) by {
        reveal_with_fuel(Seq::filter, 4);
        assert(open.drop_last() =~= seq!['{']);
        assert(middle.drop_last() =~= seq!['"', ',']);
        assert(middle.drop_last().drop_last() =~= seq!['"']);
        assert(close.drop_last() =~= seq!['"']);
    }
}

/// What the server reports of a build is what is read from its reply, whatever white space is
/// around the array and whatever frames follow, as long as neither name holds a comma or a
/// quotation mark.
pub proof fn surrounded_build_is_read_back(
    before: Seq<char>,
    exec_path: Seq<char>,
    xml_file_name: Seq<char>,
    after: Seq<char>,
    more: Seq<Seq<u8>>,
)
    requires
        is_blank(before),
        is_blank(after),
        !exec_path.contains(','),
        !exec_path.contains('"'),
        !xml_file_name.contains(','),
        !xml_file_name.contains('"'),
    ensures
        is_array_reply(
            seq![encode_utf8(before + build_array(exec_path, xml_file_name) + after)] + more,
        ),
        build_results(
            seq![encode_utf8(before + build_array(exec_path, xml_file_name) + after)] + more,
        ) == Some((exec_path, xml_file_name)),
{
    let array = build_array(exec_path, xml_file_name);
    let text = before + array + after;
    let reply = seq![encode_utf8(text)] + more;
    text_survives_the_wire(text);
    assert(reply[0] == encode_utf8(text));
    assert(leading_text(reply) == Some(text));
    assert(array.len() > 0 && array[0] == '{' && array.last() == '}') by {
        reveal_strlit("{\"");
        reveal_strlit("\"}");
    }
    trim_takes_off_what_surrounds(before, array, after);
    lemma_array_is_unquoted(exec_path, xml_file_name);
    let bare = unquoted(text);
    assert(bare == seq!['{'] + exec_path + seq![','] + xml_file_name + seq!['}']);
    assert(bare.subrange(1, bare.len() - 1) =~= exec_path.push(',') + xml_file_name);
    split_at_separator(exec_path, xml_file_name, ',');
    split_of_one_piece(exec_path, ',');
    split_of_one_piece(xml_file_name, ',');
}

/// What the server reports of a build on a line is what is read from its reply, as long as neither
/// name holds a comma or a quotation mark.
pub proof fn reported_build_is_read_back(exec_path: Seq<char>, xml_file_name: Seq<char>)
    requires
        !exec_path.contains(','),
        !exec_path.contains('"'),
        !xml_file_name.contains(','),
        !xml_file_name.contains('"'),
    ensures
        is_array_reply(seq![encode_utf8(build_reply(exec_path, xml_file_name))]),
        build_results(seq![encode_utf8(build_reply(exec_path, xml_file_name))]) == Some(
            (exec_path, xml_file_name),
        ),
{
    reveal_strlit("\n");
    let none = Seq::<char>::empty();
    let reply = build_reply(exec_path, xml_file_name);
    surrounded_build_is_read_back(none, exec_path, xml_file_name, "\n"@, Seq::<Seq<u8>>::empty());
    assert(none + build_array(exec_path, xml_file_name) + "\n"@ =~= reply);
    assert(seq![encode_utf8(reply)] + Seq::<Seq<u8>>::empty() =~= seq![encode_utf8(reply)]);
}

/// What is read from the text of a reply is told by the part of it that the white space surrounds,
/// without its quotation marks and without its first and its last character.
proof fn lemma_reply_of_core(
    before: Seq<char>,
    core: Seq<char>,
    after: Seq<char>,
    more: Seq<Seq<u8>>,
)
    requires
        is_blank(before),
        is_blank(after),
        core.len() > 0,
        !is_white_space(core[0]),
        !is_white_space(core.last()),
    ensures
        ({
            let reply = seq![encode_utf8(before + core + after)] + more;
            &&& leading_text(reply) == Some(before + core + after)
            &&& unquoted(before + core + after) == without(core, '"')
        }),
{
    let text = before + core + after;
    let reply = seq![encode_utf8(text)] + more;
    assert(reply[0] == encode_utf8(text));
    leading_text_is_that_of_the_first_frame(reply, text);
    trim_takes_off_what_surrounds(before, core, after);
}

/// The two names of a reply are the first two that stand between commas, whatever they hold,
/// whatever comes after the second, whatever two characters stand around the list and wherever
/// quotation marks stand. White space is left out around the list, and nowhere else.
pub proof fn first_two_names_are_read(
    before: Seq<char>,
    core: Seq<char>,
    after: Seq<char>,
    more: Seq<Seq<u8>>,
    open: char,
    first: Seq<char>,
    second: Seq<char>,
    tail: Seq<char>,
    close: char,
)
    requires
        is_blank(before),
        is_blank(after),
        core.len() > 0,
        !is_white_space(core[0]),
        !is_white_space(core.last()),
        without(core, '"') == seq![open] + first + seq![','] + second + tail + seq![close],
        !first.contains(','),
        !second.contains(','),
        tail.len() > 0 ==> tail[0] == ',',
    ensures
        build_results(seq![encode_utf8(before + core + after)] + more) == Some((first, second)),
{
    lemma_reply_of_core(before, core, after, more);
    let bare = without(core, '"');
    let inner = bare.subrange(1, bare.len() - 1);
    split_of_one_piece(first, ',');
    split_of_one_piece(second, ',');
    split_at_separator(first, second, ',');
    if tail.len() == 0 {
        assert(inner =~= first.push(',') + second);
    } else {
        let pair = first.push(',') + second;
        assert(inner =~= pair.push(',') + tail.skip(1));
        split_at_separator(pair, tail.skip(1), ',');
    }
}

/// A reply names nothing where it holds a list without a comma, where its first frame is no text,
/// and where it has no frame.
pub proof fn replies_without_two_names_name_nothing(
    before: Seq<char>,
    core: Seq<char>,
    after: Seq<char>,
    more: Seq<Seq<u8>>,
    open: char,
    only: Seq<char>,
    close: char,
    other: Seq<Seq<u8>>,
)
    requires
        is_blank(before),
        is_blank(after),
        core.len() > 0,
        !is_white_space(core[0]),
        !is_white_space(core.last()),
        without(core, '"') == seq![open] + only + seq![close],
        !only.contains(','),
    ensures
        build_results(seq![encode_utf8(before + core + after)] + more) is None,
        other.len() == 0 || !valid_utf8(other[0]) ==> build_results(other) is None,
{
    lemma_reply_of_core(before, core, after, more);
    let bare = without(core, '"');
    assert(bare.subrange(1, bare.len() - 1) =~= only);
    split_of_one_piece(only, ',');
    leading_text_is_that_of_the_first_frame(other, only);
}

/// A reply can be read exactly where it is no text, or where a first and a last character are left
/// of it, without the white space around and without quotation marks, each of which takes one
/// byte. It does not matter which they are, or what stands between them.
pub proof fn replies_with_two_ends_are_readable(
    before: Seq<char>,
    core: Seq<char>,
    after: Seq<char>,
    more: Seq<Seq<u8>>,
    other: Seq<Seq<u8>>,
)
    requires
        is_blank(before),
        is_blank(after),
        core.len() > 0,
        !is_white_space(core[0]),
        !is_white_space(core.last()),
    ensures
        is_array_reply(seq![encode_utf8(before + core + after)] + more) <==> {
            &&& without(core, '"').len() >= 2
            &&& (without(core, '"')[0] as u32) < 128
            &&& (without(core, '"').last() as u32) < 128
        },
        other.len() == 0 || !valid_utf8(other[0]) ==> is_array_reply(other),
{
    lemma_reply_of_core(before, core, after, more);
    leading_text_is_that_of_the_first_frame(other, core);
}

} // verus!
