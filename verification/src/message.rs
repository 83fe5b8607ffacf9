//! Messages of the transport, stated as sequences of frames of bytes.

use vstd::prelude::*;
use vstd::utf8::*;
use bytes::Bytes;
use std::string::FromUtf8Error;
use zeromq::{ZmqError, ZmqMessage};

verus! {

/// `bytes::Bytes`, a buffer of bytes.
#[verifier::external_type_specification]
#[verifier::external_body]
pub struct ExBytes(Bytes);

/// `zeromq::ZmqMessage`, a message made of frames.
#[verifier::external_type_specification]
#[verifier::external_body]
pub struct ExZmqMessage(ZmqMessage);

/// `zeromq::ZmqError`, carried through as it is.
#[verifier::external_type_specification]
#[verifier::external_body]
pub struct ExZmqError(ZmqError);

/// `std::string::FromUtf8Error`, carried through as it is.
#[verifier::external_type_specification]
#[verifier::external_body]
pub struct ExFromUtf8Error(FromUtf8Error);

/// The bytes that a buffer holds.
pub uninterp spec fn content(buffer: Bytes) -> Seq<u8>;

/// The frames that a message is made of, each as its bytes.
pub uninterp spec fn frames(message: ZmqMessage) -> Seq<Seq<u8>>;

/// The contents of a sequence of buffers.
pub open spec fn contents(buffers: Seq<Bytes>) -> Seq<Seq<u8>> {
    buffers.map_values(|b: Bytes| content(b))
}

/// `ZmqMessage::len`: the number of frames.
pub assume_specification[ ZmqMessage::len ](message: &ZmqMessage) -> (r: usize)
    ensures
        r == frames(*message).len(),
;

/// `ZmqMessage::get`: the frame at an index, and none past the last frame.
pub assume_specification[ ZmqMessage::get ](message: &ZmqMessage, index: usize) -> (r: Option<
    &Bytes,
>)
    ensures
        r is Some <==> index < frames(*message).len(),
        r is Some ==> content(*r->0) == frames(*message)[index as int],
;

/// `ZmqMessage::into_vec`: all the frames, in order.
pub assume_specification[ ZmqMessage::into_vec ](message: ZmqMessage) -> (r: Vec<Bytes>)
    ensures
        contents(r@) == frames(message),
;

/// `ZmqMessage::from` for a `String`: one frame, which holds the text encoded in UTF-8.
#[verifier::external_body]
pub(crate) fn message_of_text(text: String) -> (r: ZmqMessage)
    ensures
        frames(r) == seq![encode_utf8(text@)],
{
    ZmqMessage::from(text)
}

/// `to_vec` on a `Bytes`: a copy of the bytes that the buffer holds.
#[verifier::external_body]
fn copied(buffer: &Bytes) -> (r: Vec<u8>)
    ensures
        r@ == content(*buffer),
{
    buffer.to_vec()
}

/// `String::from_utf8`: the text that the bytes encode, where they are valid UTF-8, and an error
/// where they are not.
pub assume_specification[ String::from_utf8 ](bytes: Vec<u8>) -> (r: Result<
    String,
    FromUtf8Error,
>)
    ensures
        r is Ok <==> valid_utf8(bytes@),
        r is Ok ==> r->Ok_0@ == decode_utf8(bytes@),
;

/// The text of the first frame, where there is one and it is valid UTF-8.
pub open spec fn leading_text(message: Seq<Seq<u8>>) -> Option<Seq<char>> {
    if message.len() > 0 && valid_utf8(message[0]) {
        Some(decode_utf8(message[0]))
    } else {
        None
    }
}

/// The text of the first frame, where there is one and it is valid UTF-8.
pub fn first_text(message: &ZmqMessage) -> (r: Option<String>)
    ensures
        r is Some <==> leading_text(frames(*message)) is Some,
        r is Some ==> r->0@ == leading_text(frames(*message))->0,
{
    match message.get(0) {
        Some(frame) => match String::from_utf8(copied(frame)) {
            Ok(text) => Some(text),
            Err(_) => None,
        },
        None => None,
    }
}

/// A message of one frame that was made of a text has that text as its leading text.
pub proof fn text_survives_the_wire(text: Seq<char>)
    ensures
        leading_text(seq![encode_utf8(text)]) == Some(text),
{
    encode_utf8_valid_utf8(text);
    encode_utf8_decode_utf8(text);
}

/// The leading text of a message is a text exactly where the first frame is that text encoded in
/// UTF-8, whatever the text holds and whatever frames follow. There is none exactly where there is
/// no frame, or the first is not valid UTF-8.
pub proof fn leading_text_is_that_of_the_first_frame(message: Seq<Seq<u8>>, text: Seq<char>)
    ensures
        leading_text(message) == Some(text) <==> message.len() > 0 && message[0] == encode_utf8(
            text,
        ),
        leading_text(message) is None <==> message.len() == 0 || !valid_utf8(message[0]),
{
    encode_utf8_valid_utf8(text);
    encode_utf8_decode_utf8(text);
    if message.len() > 0 && valid_utf8(message[0]) {
        decode_utf8_encode_utf8(message[0]);
    }
}

/// The contents of buffers are those of each buffer, in order.
pub proof fn contents_are_those_of_each_buffer(buffers: Seq<Bytes>)
    ensures
        contents(buffers).len() == buffers.len(),
        forall|i: int|
            0 <= i < buffers.len() ==> (#[trigger] contents(buffers)[i]) == content(buffers[i]),
{
}

} // verus!
