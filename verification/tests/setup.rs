use bytes::Bytes;
use om_rs::error::{FromZmqError, ModelicaSystemError, OMCSessionZMQError, ZmqFailure};
use om_rs::exchange::ExchangeEvent;
use om_rs::session::OMCSessionZMQ;
use om_rs::setup::{built_system, SetupAction, SystemSetup};
use zeromq::ZmqMessage;

fn session() -> OMCSessionZMQ {
    let env = Some("/usr".to_string());
    match OMCSessionZMQ::new_for(None, env, "ada".to_string(), "r1".to_string()) {
        Ok(session) => session.established(),
        Err(_) => panic!("no session"),
    }
}

fn start() -> (ZmqMessage, SystemSetup) {
    match SystemSetup::start(&session(), "/m/Test.mo", "Test", true) {
        Ok(request) => request,
        Err(_) => panic!("not started"),
    }
}

fn text(message: ZmqMessage) -> String {
    String::try_from(message).unwrap()
}

/// The texts that are sent while the server gives the replies, and the last action.
fn conversation(replies: &[&str]) -> (Vec<String>, SetupAction) {
    let (message, mut setup) = start();
    let mut sent = vec![text(message)];
    for (i, reply) in replies.iter().enumerate() {
        match setup.step(&session(), ExchangeEvent::Reply(ZmqMessage::from(*reply))) {
            SetupAction::Send { message, next } => {
                sent.push(text(message));
                setup = next;
            }
            last => {
                assert_eq!(i + 1, replies.len());
                return (sent, last);
            }
        }
    }
    panic!("not finished");
}

#[test]
fn the_file_is_loaded_and_then_the_model_is_built() {
    let reply = "{\"/tmp/Test\",\"Test_init.xml\"}\n";
    let (sent, last) = conversation(&["true\n", "\"\"\n", reply, "\"\"\n"]);
    assert_eq!(
        sent,
        vec!["loadFile(\"/m/Test.mo\")", "getErrorString()", "buildModel(Test)", "getErrorString()"]
    );
    match last {
        SetupAction::Built { reply: built } => assert_eq!(text(built), reply),
        _ => panic!("not built"),
    }
}

#[test]
fn a_file_that_is_refused_is_not_built() {
    let (sent, last) = conversation(&["false\n", "\"bad\"\n"]);
    assert_eq!(sent, vec!["loadFile(\"/m/Test.mo\")", "getErrorString()"]);
    match last {
        SetupAction::Fail {
            error: ModelicaSystemError::OMCSessionZMQErr(OMCSessionZMQError::ExpressionError {
                bytes,
            }),
        } => assert_eq!(bytes, vec!["\"bad\"\n"]),
        _ => panic!("not refused"),
    }
}

#[test]
fn a_build_that_is_refused_fails_the_setup() {
    let (_, setup) = start();
    let mut setup = setup;
    for reply in ["true\n", "\"\"\n"] {
        setup = match setup.step(&session(), ExchangeEvent::Reply(ZmqMessage::from(reply))) {
            SetupAction::Send { next, .. } => next,
            _ => panic!("finished"),
        };
    }
    let two = ZmqMessage::try_from(vec![Bytes::from("a"), Bytes::from("b")]).unwrap();
    setup = match setup.step(&session(), ExchangeEvent::Reply(two)) {
        SetupAction::Send { next, .. } => next,
        _ => panic!("finished"),
    };
    assert!(matches!(
        setup.step(&session(), ExchangeEvent::Reply(ZmqMessage::from("e"))),
        SetupAction::Fail {
            error: ModelicaSystemError::OMCSessionZMQErr(OMCSessionZMQError::ExpressionError { .. })
        }
    ));
}

#[test]
fn a_failure_of_the_transport_fails_the_setup() {
    let (_, setup) = start();
    assert!(matches!(
        setup.step(&session(), ExchangeEvent::Failure(ZmqFailure::NoMessage)),
        SetupAction::Fail {
            error: ModelicaSystemError::OMCSessionZMQErr(OMCSessionZMQError::ZmqErr(
                ZmqFailure::NoMessage
            ))
        }
    ));
}

#[test]
fn a_file_that_does_not_exist_is_not_loaded() {
    match SystemSetup::start(&session(), "/no.mo", "Test", false) {
        Err(ModelicaSystemError::ModelNotFound { model_path }) => assert_eq!(model_path, "/no.mo"),
        _ => panic!("started"),
    }
}

#[test]
fn the_reply_to_a_build_describes_the_system() {
    let reply = ZmqMessage::from("{\"/tmp/om/Test\",\"Test_init.xml\"}\n");
    match built_system(&session(), "/m/Test.mo", "Test", reply) {
        Ok(system) => {
            assert_eq!(system.exec_file_path(), "/tmp/om/Test");
            assert_eq!(system.xml_file_path(), "/tmp/om/Test_init.xml");
            assert_eq!(system.model_file_path(), "/m/Test.mo");
            assert_eq!(system.model_name(), "Test");
        }
        Err(_) => panic!("no system"),
    }
}

#[test]
fn a_reply_that_names_nothing_describes_no_system() {
    match built_system(&session(), "f", "m", ZmqMessage::from("{}\n")) {
        Err(ModelicaSystemError::OMCSessionZMQErr(OMCSessionZMQError::FromZmqErr(
            FromZmqError::BuildModelResultsParseError { bytes },
        ))) => assert_eq!(bytes, vec!["{}\n"]),
        _ => panic!("a system"),
    }
    match built_system(&session(), "f", "m", ZmqMessage::from("{\"\",\"\"}\n")) {
        Err(ModelicaSystemError::ExecParentDirError { exec_path }) => assert_eq!(exec_path, ""),
        _ => panic!("a system"),
    }
}
