use bytes::Bytes;
use om_rs::error::{OMCSessionZMQError, ZmqFailure};
use om_rs::exchange::{acknowledge, verdict, Exchange, ExchangeAction, ExchangeEvent};
use om_rs::expression::OMCExpression;
use om_rs::session::OMCSessionZMQ;
use zeromq::{ZmqError, ZmqMessage};

fn session() -> OMCSessionZMQ {
    let env = Some("/usr".to_string());
    match OMCSessionZMQ::new_for(None, env, "ada".to_string(), "r1".to_string()) {
        Ok(session) => session.established(),
        Err(_) => panic!("no session"),
    }
}

fn load() -> OMCExpression {
    OMCExpression::LoadFile { file: "T.mo".to_string() }
}

fn build() -> OMCExpression {
    OMCExpression::BuildModel { name: "T".to_string() }
}

fn frames(message: ZmqMessage) -> Vec<Bytes> {
    message.into_vec()
}

fn two_frames() -> ZmqMessage {
    ZmqMessage::try_from(vec![Bytes::from("a"), Bytes::from("b")]).unwrap()
}

fn refusal(result: Result<ZmqMessage, OMCSessionZMQError>) -> Option<Vec<Bytes>> {
    match result {
        Ok(_) => None,
        Err(OMCSessionZMQError::ExpressionError { bytes }) => Some(bytes),
        Err(_) => panic!("another error"),
    }
}

#[test]
fn an_expression_is_sent_as_one_frame() {
    let (message, _) = session().send_expression(load());
    assert_eq!(frames(message), vec!["loadFile(\"T.mo\")"]);
    assert_eq!(frames(session().quit().0), vec!["quit()"]);
    assert_eq!(frames(session().load_file("/a b.mo").0), vec!["loadFile(\"/a b.mo\")"]);
    assert_eq!(frames(session().build_model("A.B").0), vec!["buildModel(A.B)"]);
}

#[test]
fn the_reply_to_quit_is_the_result() {
    let (_, exchange) = session().quit();
    match exchange.step(ExchangeEvent::Reply(ZmqMessage::from("false\n"))) {
        ExchangeAction::Finish { result } => assert_eq!(frames(result.unwrap()), vec!["false\n"]),
        _ => panic!("not finished"),
    }
}

#[test]
fn the_server_is_asked_for_its_error_string() {
    let (_, exchange) = session().load_file("T.mo");
    let next = match exchange.step(ExchangeEvent::Reply(ZmqMessage::from("true\n"))) {
        ExchangeAction::Send { message, next } => {
            assert_eq!(frames(message), vec!["getErrorString()"]);
            next
        }
        _ => panic!("finished"),
    };
    match next.step(ExchangeEvent::Reply(ZmqMessage::from("\"\"\n"))) {
        ExchangeAction::Finish { result } => assert_eq!(frames(result.unwrap()), vec!["true\n"]),
        _ => panic!("not finished"),
    }
}

#[test]
fn a_refused_file_comes_back_with_the_error_string() {
    let (_, exchange) = session().load_file("T.mo");
    let next = match exchange.step(ExchangeEvent::Reply(ZmqMessage::from("false\n"))) {
        ExchangeAction::Send { next, .. } => next,
        _ => panic!("finished"),
    };
    match next.step(ExchangeEvent::Reply(ZmqMessage::from("\"no such file\"\n"))) {
        ExchangeAction::Finish { result } => {
            assert_eq!(refusal(result), Some(vec![Bytes::from("\"no such file\"\n")]))
        }
        _ => panic!("not finished"),
    }
}

#[test]
fn a_failure_ends_the_conversation_at_any_point() {
    let checking = Exchange::Checking { expr: load(), response: ZmqMessage::from("true\n") };
    for exchange in [session().quit().1, session().build_model("T").1, checking] {
        let failure = ZmqFailure::Other(ZmqError::Other("gone"));
        match exchange.step(ExchangeEvent::Failure(failure)) {
            ExchangeAction::Finish {
                result: Err(OMCSessionZMQError::ZmqErr(ZmqFailure::Other(ZmqError::Other(why)))),
            } => assert_eq!(why, "gone"),
            _ => panic!("another action"),
        }
    }
}

#[test]
fn success_is_not_refused_whatever_the_error_string() {
    let result = verdict(&load(), ZmqMessage::from("true\n"), ZmqMessage::from("\"warning\"\n"));
    assert_eq!(refusal(result), None);
}

#[test]
fn only_the_exact_line_is_success() {
    for response in ["true", "True\n", " true\n", "", "true\n\n"] {
        let result = verdict(&load(), ZmqMessage::from(response), ZmqMessage::from("e"));
        assert_eq!(refusal(result), Some(vec![Bytes::from("e")]), "{response}");
    }
    let result = verdict(
        &OMCExpression::GetErrorString,
        ZmqMessage::from("\"\"\n"),
        ZmqMessage::from("\"\"\n"),
    );
    assert_eq!(refusal(result), Some(vec![Bytes::from("\"\"\n")]));
}

#[test]
fn an_error_string_that_is_no_text_refuses_nothing() {
    let result = verdict(&load(), ZmqMessage::from("false\n"), ZmqMessage::from(vec![0xffu8]));
    assert_eq!(refusal(result), None);
}

#[test]
fn a_build_is_refused_by_the_number_of_frames() {
    let result = verdict(&build(), two_frames(), ZmqMessage::from("e"));
    assert_eq!(refusal(result), Some(vec![Bytes::from("e")]));
    let result = verdict(&build(), ZmqMessage::from("{a,b}"), ZmqMessage::from("e"));
    assert_eq!(refusal(result), None);
    let three = ZmqMessage::try_from(vec![Bytes::new(), Bytes::new(), Bytes::new()]).unwrap();
    assert_eq!(refusal(verdict(&build(), three, ZmqMessage::from("e"))), None);
}

#[test]
fn every_frame_of_the_error_string_is_kept() {
    let result = verdict(&load(), ZmqMessage::from("false\n"), two_frames());
    assert_eq!(refusal(result), Some(vec![Bytes::from("a"), Bytes::from("b")]));
}

#[test]
fn acknowledging_keeps_the_failure() {
    assert!(acknowledge(Ok(ZmqMessage::from("x"))).is_ok());
    let refused = OMCSessionZMQError::ExpressionError { bytes: vec![Bytes::from("e")] };
    match acknowledge(Err(refused)) {
        Err(OMCSessionZMQError::ExpressionError { bytes }) => assert_eq!(bytes, vec!["e"]),
        _ => panic!("another result"),
    }
}
