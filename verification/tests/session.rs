use om_rs::error::{
    FromZmqError, IoFailure, OMCPathError, OMCSessionBaseConstructionError,
    OMCSessionZMQConstructionError, OMCSessionZMQError, ZmqFailure,
};
use om_rs::session::{
    session_path_of, OMCSessionBase, OMCSessionZMQ, PendingSession, CONNECT_ATTEMPTS,
    CONNECT_PAUSE_MILLIS,
};
use std::io::{Error, ErrorKind};
use std::path::PathBuf;
use zeromq::{ZmqError, ZmqMessage};

fn text(s: &str) -> Option<String> {
    Some(s.to_string())
}

fn pending(home: Option<String>, env: Option<String>) -> PendingSession {
    match OMCSessionZMQ::new_for(home, env, "ada".to_string(), "r1".to_string()) {
        Ok(session) => session,
        Err(_) => panic!("no session"),
    }
}

#[test]
fn the_executable_lies_in_the_bin_directory() {
    assert_eq!(OMCSessionBase::get_omc_path("/usr").unwrap(), "/usr/bin/omc");
    assert_eq!(OMCSessionBase::get_omc_path_str("/opt/om/").unwrap(), "/opt/om/bin/omc");
    assert_eq!(OMCSessionBase::get_omc_path_str("").unwrap(), "bin/omc");
    for home in ["", "/", "/usr", "om", "om/", "/a b"] {
        let expected: PathBuf = [home, "bin", "omc"].iter().collect();
        assert_eq!(OMCSessionBase::get_omc_path_str(home).unwrap(), expected.to_str().unwrap());
    }
}

#[test]
fn the_files_of_a_session_carry_its_names() {
    assert_eq!(session_path_of("ada", "port", "r1"), "/tmp/openmodelica.ada.port.r1");
    let session = pending(None, text("/usr")).established();
    assert_eq!(session.port_file(), "/tmp/openmodelica.ada.port.r1");
    assert_eq!(session.base().log_file_path(), "/tmp/openmodelica.ada.port.r1.log");
    assert_eq!(session.current_user(), "ada");
    assert_eq!(session.log_file_suffix(), "port");
    assert_eq!(session.random_string(), "r1");
}

#[test]
fn the_server_is_started_with_the_random_text() {
    let session = pending(None, text("/usr"));
    let launch = session.launch();
    assert_eq!(launch.omc_path, "/usr/bin/omc");
    assert_eq!(launch.omc_args, vec!["--interactive=zmq", "--locale=C", "-z=r1"]);
    assert_eq!(launch.log_file_path, "/tmp/openmodelica.ada.port.r1.log");
}

#[test]
fn a_given_installation_goes_before_the_environment() {
    let session = pending(text("/opt/om"), text("/usr"));
    assert_eq!(session.launch().omc_path, "/opt/om/bin/omc");
}

#[test]
fn without_the_environment_variable_there_is_no_session() {
    for home in [None, text("/opt/om")] {
        match OMCSessionZMQ::new(home, None) {
            Err(OMCSessionZMQConstructionError::OpenModelicaHomeEnvVarNotSet { env_var }) => {
                assert_eq!(env_var, "OPENMODELICAHOME")
            }
            _ => panic!("a session"),
        }
    }
}

#[test]
fn a_new_session_has_a_random_text_of_its_own() {
    let mut seen: Vec<String> = Vec::new();
    for _ in 0..3 {
        let session = OMCSessionZMQ::new(None, text("/usr")).unwrap_or_else(|_| panic!("none"));
        let session = session.established();
        let id: Vec<char> = session.random_string().chars().collect();
        assert_eq!(id.len(), 36);
        for (i, c) in id.iter().enumerate() {
            if [8, 13, 18, 23].contains(&i) {
                assert_eq!(*c, '-');
            } else {
                assert!(c.is_ascii_digit() || ('a'..='f').contains(c));
            }
        }
        assert_eq!(id[14], '4');
        assert!(['8', '9', 'a', 'b'].contains(&id[19]));
        let path = session_path_of(session.current_user(), "port", session.random_string());
        assert_eq!(session.port_file(), path);
        assert!(!session.current_user().is_empty());
        assert!(!seen.contains(&path));
        seen.push(path);
    }
}

#[test]
fn sessions_of_different_users_share_no_file() {
    let ids = [
        "67e55044-10b1-426f-9247-bb680e5fe0c8",
        "67e55044-10b1-426f-9247-bb680e5fe0c9",
    ];
    let mut files: Vec<String> = Vec::new();
    for (user, id) in ["ada", "ada.port"].iter().zip(ids) {
        let session = match OMCSessionZMQ::new_for(
            None,
            text("/usr"),
            user.to_string(),
            id.to_string(),
        ) {
            Ok(session) => session.established(),
            Err(_) => panic!("no session"),
        };
        for file in [session.port_file(), session.base().log_file_path()] {
            assert!(!files.contains(&file.to_string()));
            files.push(file.to_string());
        }
    }
    assert_eq!(files.len(), 4);
}

#[test]
fn the_search_for_the_server_has_its_limits() {
    let connector = pending(None, text("/usr")).connector();
    assert_eq!(connector.port_file, "/tmp/openmodelica.ada.port.r1");
    assert_eq!(connector.attempts_left, CONNECT_ATTEMPTS);
    assert_eq!(connector.pause_millis, CONNECT_PAUSE_MILLIS);
    assert_eq!((CONNECT_ATTEMPTS, CONNECT_PAUSE_MILLIS), (80, 5));
}

#[test]
fn a_missing_executable_is_named() {
    let session = pending(None, text("/usr"));
    let missing = IoFailure::NotFound(Error::from(ErrorKind::NotFound));
    match session.launch().start_error(missing) {
        OMCSessionBaseConstructionError::OMCPathErr(OMCPathError::OMCNotFound { omc_path }) => {
            assert_eq!(omc_path, "/usr/bin/omc")
        }
        _ => panic!("another error"),
    }
    let denied = IoFailure::Other(Error::from(ErrorKind::PermissionDenied));
    match session.launch().start_error(denied) {
        OMCSessionBaseConstructionError::IOError(e) => {
            assert_eq!(e.kind(), ErrorKind::PermissionDenied)
        }
        _ => panic!("another error"),
    }
}

#[test]
fn a_log_file_that_cannot_be_created_is_named() {
    let session = pending(None, text("/usr"));
    match session.launch().log_file_error(Error::from(ErrorKind::PermissionDenied)) {
        OMCSessionBaseConstructionError::FailedToCreateOMCLogFile { path, source } => {
            assert_eq!(path, "/tmp/openmodelica.ada.port.r1.log");
            assert_eq!(source.kind(), ErrorKind::PermissionDenied);
        }
        _ => panic!("another error"),
    }
}

#[test]
fn the_results_of_a_build_are_read_from_the_reply() {
    let reply = ZmqMessage::from("{\"/tmp/T\",\"T_init.xml\"}\n");
    match OMCSessionZMQ::build_model_results(Ok(reply)) {
        Ok(results) => {
            assert_eq!(results.exec_path, "/tmp/T");
            assert_eq!(results.xml_file_name, "T_init.xml");
        }
        Err(_) => panic!("no results"),
    }
    match OMCSessionZMQ::build_model_results(Ok(ZmqMessage::from("{a}"))) {
        Err(OMCSessionZMQError::FromZmqErr(FromZmqError::BuildModelResultsParseError {
            bytes,
        })) => assert_eq!(bytes, vec!["{a}"]),
        _ => panic!("results"),
    }
    let failure = OMCSessionZMQError::ZmqErr(ZmqFailure::NoMessage);
    match OMCSessionZMQ::build_model_results(Err(failure)) {
        Err(OMCSessionZMQError::ZmqErr(ZmqFailure::NoMessage)) => {}
        _ => panic!("another result"),
    }
}

#[test]
fn a_server_that_ends_without_an_answer_is_no_failure() {
    assert!(OMCSessionZMQ::shutdown_failure(Ok(())).is_none());
    let closed = OMCSessionZMQError::ZmqErr(ZmqFailure::NoMessage);
    assert!(OMCSessionZMQ::shutdown_failure(Err(closed)).is_none());
    let other = OMCSessionZMQError::ZmqErr(ZmqFailure::Other(ZmqError::Other("gone")));
    assert!(matches!(
        OMCSessionZMQ::shutdown_failure(Err(other)),
        Some(OMCSessionZMQError::ZmqErr(ZmqFailure::Other(_)))
    ));
    let refused = OMCSessionZMQError::ExpressionError { bytes: vec![] };
    assert!(matches!(
        OMCSessionZMQ::shutdown_failure(Err(refused)),
        Some(OMCSessionZMQError::ExpressionError { .. })
    ));
}
