//! The conversation that evaluates one expression: which messages go to the server, and what its
//! replies mean.

use crate::error::{OMCSessionZMQError, ZmqFailure};
use crate::expression::{text_is_a_call_with_the_argument, OMCExpression};
use crate::message::{
    contents, first_text, frames, leading_text, leading_text_is_that_of_the_first_frame,
    message_of_text,
};
use vstd::prelude::*;
use vstd::string::*;
use vstd::utf8::*;
use zeromq::ZmqMessage;

verus! {

/// A conversation that waits for what comes of the message that was handed out last.
pub enum Exchange {
    /// The expression is with the server.
    Evaluating { expr: OMCExpression },
    /// The server has answered, and is asked for its error string.
    Checking { expr: OMCExpression, response: ZmqMessage },
}

/// What came of a message.
pub enum ExchangeEvent {
    /// The server replied.
    Reply(ZmqMessage),
    /// It could not be sent, or no reply could be received.
    Failure(ZmqFailure),
}

/// What is to be done next.
pub enum ExchangeAction {
    /// Send the message and report what comes of it to the conversation.
    Send { message: ZmqMessage, next: Exchange },
    /// The conversation has ended.
    Finish { result: Result<ZmqMessage, OMCSessionZMQError> },
}

/// The message carries the expression: one frame with its text.
pub open spec fn carries(message: ZmqMessage, text: Seq<char>) -> bool {
    frames(message) == seq![encode_utf8(text)]
}

/// The reply with which the server says that a command succeeded.
pub open spec fn says_true(reply: Seq<Seq<u8>>) -> bool {
    leading_text(reply) == Some("true\n"@)
}

/// Whether the server has refused an expression, judged by its response and by its error string.
pub open spec fn is_refused(
    expr: OMCExpression,
    response: Seq<Seq<u8>>,
    error: Seq<Seq<u8>>,
) -> bool {
    match expr {
        OMCExpression::Quit => false,
        OMCExpression::BuildModel { .. } => response.len() == 2,
        _ => leading_text(error) is Some && !says_true(response),
    }
}

/// What the evaluation of an expression comes to: the response, or the error string of a server
/// that has refused it.
pub open spec fn is_verdict(
    expr: OMCExpression,
    response: ZmqMessage,
    error: ZmqMessage,
    result: Result<ZmqMessage, OMCSessionZMQError>,
) -> bool {
    if is_refused(expr, frames(response), frames(error)) {
        result matches Err(OMCSessionZMQError::ExpressionError { bytes }) && contents(bytes@)
            == frames(error)
    } else {
        result == Ok::<ZmqMessage, OMCSessionZMQError>(response)
    }
}

/// Whether the text is the one with which the server says that a command succeeded.
fn is_true_line(text: &String) -> (r: bool)
    ensures
        r == (text@ == "true\n"@),
{
    *text == "true\n".to_string()
}

/// What the evaluation of an expression comes to, once the server has been asked for its error
/// string.
pub fn verdict(expr: &OMCExpression, response: ZmqMessage, error: ZmqMessage) -> (r: Result<
    ZmqMessage,
    OMCSessionZMQError,
>)
    ensures
        is_verdict(*expr, response, error, r),
{
    let refused = match expr {
        OMCExpression::Quit => false,
        // Check if `buildModelResults` exist
        OMCExpression::BuildModel { .. } => response.len() == 2,
        _ => {
            // Check if response message is "true"
            let successful = match first_text(&response) {
                Some(text) => is_true_line(&text),
                None => false,
            };
            first_text(&error).is_some() && !successful
        },
    };
    if refused {
        Err(OMCSessionZMQError::ExpressionError { bytes: error.into_vec() })
    } else {
        Ok(response)
    }
}

/// The action that a conversation takes on an event.
pub open spec fn is_next_action(
    exchange: Exchange,
    event: ExchangeEvent,
    action: ExchangeAction,
) -> bool {
    match event {
        ExchangeEvent::Failure(failure) => action == (ExchangeAction::Finish {
            result: Err(OMCSessionZMQError::ZmqErr(failure)),
        }),
        ExchangeEvent::Reply(reply) => match exchange {
            Exchange::Evaluating { expr } => if expr is Quit {
                action == (ExchangeAction::Finish { result: Ok(reply) })
            } else {
                action matches ExchangeAction::Send { message, next } && carries(
                    message,
                    OMCExpression::GetErrorString.text(),
                ) && next == (Exchange::Checking { expr, response: reply })
            },
            Exchange::Checking { expr, response } => {
                action matches ExchangeAction::Finish { result } && is_verdict(
                    expr,
                    response,
                    reply,
                    result,
                )
            },
        },
    }
}

impl Exchange {
    /// The number of replies that the conversation still waits for, at most.
    pub open spec fn replies_left(self) -> nat {
        match self {
            Exchange::Evaluating { expr } => if expr is Quit {
                1
            } else {
                2
            },
            Exchange::Checking { .. } => 1,
        }
    }

    /// Takes the conversation one step further.
    pub fn step(self, event: ExchangeEvent) -> (r: ExchangeAction)
        ensures
            is_next_action(self, event, r),
    {
        match event {
            ExchangeEvent::Failure(failure) => ExchangeAction::Finish {
                result: Err(OMCSessionZMQError::ZmqErr(failure)),
            },
            ExchangeEvent::Reply(reply) => match self {
                Exchange::Evaluating { expr } => {
                    match expr {
                        OMCExpression::Quit => ExchangeAction::Finish { result: Ok(reply) },
                        _ => ExchangeAction::Send {
                            message: message_of_text(OMCExpression::GetErrorString.to_string()),
                            next: Exchange::Checking { expr, response: reply },
                        },
                    }
                },
                Exchange::Checking { expr, response } => ExchangeAction::Finish {
                    result: verdict(&expr, response, reply),
                },
            },
        }
    }
}

/// Every conversation ends: a step that does not end it leaves fewer replies to wait for.
pub proof fn conversation_ends(exchange: Exchange, event: ExchangeEvent, action: ExchangeAction)
    requires
        is_next_action(exchange, event, action),
    ensures
        action matches ExchangeAction::Send { next, .. } ==> next.replies_left()
            < exchange.replies_left(),
{
}

/// The whole of a conversation whose messages all get through: for the expression that ends the
/// server one reply is taken, and it is the result, whatever it holds; for any other, the server
/// is asked for its error string next, and the verdict on both replies is the result.
pub proof fn conversation_result(
    expr: OMCExpression,
    response: ZmqMessage,
    error: ZmqMessage,
    first: ExchangeAction,
    second: ExchangeAction,
)
    requires
        is_next_action(
            Exchange::Evaluating { expr },
            ExchangeEvent::Reply(response),
            first,
        ),
        first is Send ==> is_next_action(first->next, ExchangeEvent::Reply(error), second),
    ensures
        expr is Quit <==> first is Finish,
        expr is Quit ==> first == (ExchangeAction::Finish { result: Ok(response) }),
        !(expr is Quit) ==> carries(first->message, "getErrorString()"@) && second is Finish
            && is_verdict(expr, response, error, second->result),
{
}

/// A command that the server reports as successful is not refused, whatever its error string
/// holds.
pub proof fn success_is_not_refused(
    expr: OMCExpression,
    response: Seq<Seq<u8>>,
    error: Seq<Seq<u8>>,
)
    requires
        !(expr is BuildModel),
        says_true(response),
    ensures
        !is_refused(expr, response, error),
{
}

/// A command of which only the success counts has succeeded where it has, and has failed as it has.
pub open spec fn is_acknowledgement(
    result: Result<ZmqMessage, OMCSessionZMQError>,
    r: Result<(), OMCSessionZMQError>,
) -> bool {
    match result {
        Ok(_) => r is Ok,
        Err(e) => r == Err::<(), OMCSessionZMQError>(e),
    }
}

/// No failure of a command is lost, and no success becomes a failure: the error is the very one
/// that the evaluation came to.
pub proof fn acknowledgement_keeps_every_error(
    result: Result<ZmqMessage, OMCSessionZMQError>,
    r: Result<(), OMCSessionZMQError>,
)
    requires
        is_acknowledgement(result, r),
    ensures
        r is Err <==> result is Err,
        r is Err ==> r->Err_0 == result->Err_0,
{
}

/// The result of a command of which only the success counts.
pub fn acknowledge(result: Result<ZmqMessage, OMCSessionZMQError>) -> (r: Result<
    (),
    OMCSessionZMQError,
>)
    ensures
        r == match result {
            Ok(_) => Ok::<(), OMCSessionZMQError>(()),
            Err(e) => Err(e),
        },
        is_acknowledgement(result, r),
{
    match result {
        Ok(_) => Ok(()),
        Err(e) => Err(e),
    }
}

/// A message that carries a text holds that text and nothing else: it is one frame, whose text is
/// the one that was sent, whatever it holds. So a message carries one text only.
pub proof fn carried_text_is_read(message: ZmqMessage, text: Seq<char>, other: Seq<char>)
    requires
        carries(message, text),
    ensures
        frames(message).len() == 1,
        frames(message)[0] == encode_utf8(text),
        leading_text(frames(message)) == Some(text),
        carries(message, other) ==> other == text,
{
    leading_text_is_that_of_the_first_frame(frames(message), text);
    leading_text_is_that_of_the_first_frame(frames(message), other);
}

/// A command other than a build, and other than the one that ends the server, is refused exactly
/// where the error string is a text and the first frame of the response is not, byte for byte, the
/// line `true`. A build is refused exactly where the response has two frames. The command that
/// ends the server is never refused. Neither the argument of the command nor what the error string
/// says has a part in it.
pub proof fn refusals_are_told_by_the_frames(
    expr: OMCExpression,
    response: Seq<Seq<u8>>,
    error: Seq<Seq<u8>>,
)
    ensures
        expr is LoadFile || expr is GetErrorString ==> (is_refused(expr, response, error) <==> {
            &&& error.len() > 0 && valid_utf8(error[0])
            &&& response.len() == 0 || response[0] != encode_utf8(seq!['t', 'r', 'u', 'e', '\n'])
        }),
        expr is BuildModel ==> (is_refused(expr, response, error) <==> response.len() == 2),
        expr is Quit ==> !is_refused(expr, response, error),
{
    reveal_strlit("true\n");
    let line = seq!['t', 'r', 'u', 'e', '\n'];
    assert("true\n"@ =~= line);
    leading_text_is_that_of_the_first_frame(response, line);
    leading_text_is_that_of_the_first_frame(error, line);
}

/// A command of which the server does not say that it succeeded is refused, whatever text the
/// error string is, empty or of many lines, and whatever frames follow it.
pub proof fn failure_is_refused(
    expr: OMCExpression,
    response: Seq<Seq<u8>>,
    text: Seq<char>,
    more: Seq<Seq<u8>>,
)
    requires
        expr is LoadFile || expr is GetErrorString,
        response.len() > 0 ==> response[0] != encode_utf8(seq!['t', 'r', 'u', 'e', '\n']),
    ensures
        is_refused(expr, response, seq![encode_utf8(text)] + more),
{
    encode_utf8_valid_utf8(text);
    let error = seq![encode_utf8(text)] + more;
    assert(error[0] == encode_utf8(text));
    refusals_are_told_by_the_frames(expr, response, error);
}

/// Where the evaluation of an expression fails, the error holds all frames of the error string, and
/// where it does not, the result is the response itself; there is no third way. Which of the two
/// it is, the frames tell.
pub proof fn verdict_is_the_response_or_the_error(
    expr: OMCExpression,
    response: ZmqMessage,
    error: ZmqMessage,
    result: Result<ZmqMessage, OMCSessionZMQError>,
)
    requires
        is_verdict(expr, response, error, result),
    ensures
        result matches Ok(reply) ==> reply == response,
        result matches Err(e) ==> (e matches OMCSessionZMQError::ExpressionError { bytes }
            && contents(bytes@) == frames(error)),
        expr is LoadFile || expr is GetErrorString ==> (result is Err <==> {
            &&& frames(error).len() > 0 && valid_utf8(frames(error)[0])
            &&& frames(response).len() == 0 || frames(response)[0] != encode_utf8(
                seq!['t', 'r', 'u', 'e', '\n'],
            )
        }),
        expr is BuildModel ==> (result is Err <==> frames(response).len() == 2),
        expr is Quit ==> result is Ok,
{
    refusals_are_told_by_the_frames(expr, frames(response), frames(error));
}

/// A message that does not get through ends the conversation, whatever it was about and however
/// far it has come, and the failure is its result, as it was reported.
pub proof fn failure_ends_the_conversation(
    exchange: Exchange,
    failure: ZmqFailure,
    action: ExchangeAction,
)
    requires
        is_next_action(exchange, ExchangeEvent::Failure(failure), action),
    ensures
        action is Finish,
        action->result is Err,
        action->result->Err_0 is ZmqErr,
        action->result->Err_0->ZmqErr_0 == failure,
{
}

/// The whole of a conversation that loads a file, or asks for the error string: after the response
/// one frame with the text `getErrorString()` is sent, and whatever comes back then ends the
/// conversation, with the response where it is the line `true` or no error string can be read, and
/// with the error string where it is not.
pub proof fn command_fails_unless_it_says_true(
    expr: OMCExpression,
    response: ZmqMessage,
    error: ZmqMessage,
    first: ExchangeAction,
    second: ExchangeAction,
)
    requires
        expr is LoadFile || expr is GetErrorString,
        is_next_action(
            Exchange::Evaluating { expr },
            ExchangeEvent::Reply(response),
            first,
        ),
        first is Send ==> is_next_action(first->next, ExchangeEvent::Reply(error), second),
    ensures
        first is Send,
        frames(first->message).len() == 1,
        frames(first->message)[0] == encode_utf8("getErrorString"@ + seq!['(', ')']),
        second is Finish,
        second->result is Ok <==> {
            ||| frames(error).len() == 0 || !valid_utf8(frames(error)[0])
            ||| frames(response).len() > 0 && frames(response)[0] == encode_utf8(
                seq!['t', 'r', 'u', 'e', '\n'],
            )
        },
        second->result is Ok ==> second->result->Ok_0 == response,
        second->result is Err ==> second->result->Err_0 is ExpressionError && contents(
            second->result->Err_0->bytes@,
        ) == frames(error),
{
    text_is_a_call_with_the_argument(OMCExpression::GetErrorString, 0);
    verdict_is_the_response_or_the_error(expr, response, error, second->result);
}

} // verus!
