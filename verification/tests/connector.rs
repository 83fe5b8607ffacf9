use om_rs::connector::{ConnectAction, ConnectEvent, Connector};
use om_rs::error::{
    IoFailure, OMCSessionZMQConstructionError, OMCSessionZMQError, ZmqFailure,
};
use std::io::{Error, ErrorKind};
use zeromq::ZmqError;

fn missing() -> ConnectEvent {
    ConnectEvent::PortFileFailed(IoFailure::NotFound(Error::from(ErrorKind::NotFound)))
}

#[test]
fn a_missing_port_file_is_read_once_for_each_attempt() {
    let mut search = Connector::new("/tmp/p", 5, 3);
    let mut event = ConnectEvent::Begin;
    let mut reads: u32 = 0;
    let mut pauses: u32 = 0;
    loop {
        event = match search.step(event) {
            ConnectAction::ReadPortFile => {
                reads += 1;
                missing()
            }
            ConnectAction::Pause(millis) => {
                assert_eq!(millis, 5);
                pauses += 1;
                ConnectEvent::Paused
            }
            ConnectAction::Finish(Err(
                OMCSessionZMQConstructionError::OMCServerFailedToStart { port_file },
            )) => {
                assert_eq!(port_file, "/tmp/p");
                break;
            }
            _ => panic!("another action"),
        };
    }
    assert_eq!((reads, pauses), (3, 3));
}

#[test]
fn a_search_without_attempts_reads_nothing() {
    let mut search = Connector::new("/tmp/p", 5, 0);
    assert!(matches!(
        search.step(ConnectEvent::Begin),
        ConnectAction::Finish(Err(OMCSessionZMQConstructionError::OMCServerFailedToStart { .. }))
    ));
}

#[test]
fn the_address_that_is_found_is_connected_to() {
    let mut search = Connector::new("/tmp/p", 5, 2);
    assert!(matches!(search.step(ConnectEvent::Begin), ConnectAction::ReadPortFile));
    assert!(matches!(search.step(missing()), ConnectAction::Pause(5)));
    assert!(matches!(search.step(ConnectEvent::Paused), ConnectAction::ReadPortFile));
    assert_eq!(search.attempts_left, 0);
    match search.step(ConnectEvent::PortFileRead("tcp://127.0.0.1:1".to_string())) {
        ConnectAction::Connect(address) => assert_eq!(address, "tcp://127.0.0.1:1"),
        _ => panic!("another action"),
    }
    assert!(matches!(search.step(ConnectEvent::Connected), ConnectAction::Finish(Ok(()))));
}

#[test]
fn another_error_ends_the_search() {
    let mut search = Connector::new("/tmp/p", 5, 2);
    let denied = IoFailure::Other(Error::from(ErrorKind::PermissionDenied));
    match search.step(ConnectEvent::PortFileFailed(denied)) {
        ConnectAction::Finish(Err(OMCSessionZMQConstructionError::IOErr(e))) => {
            assert_eq!(e.kind(), ErrorKind::PermissionDenied)
        }
        _ => panic!("another action"),
    }
}

#[test]
fn a_server_that_cannot_be_reached_ends_the_search() {
    let mut search = Connector::new("/tmp/p", 5, 2);
    let failure = ZmqFailure::Other(ZmqError::Other("refused"));
    assert!(matches!(
        search.step(ConnectEvent::ConnectFailed(failure)),
        ConnectAction::Finish(Err(OMCSessionZMQConstructionError::OMCSessionZMQErr(
            OMCSessionZMQError::ZmqErr(ZmqFailure::Other(ZmqError::Other("refused")))
        )))
    ));
}
