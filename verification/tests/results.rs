use bytes::Bytes;
use om_rs::error::FromZmqError;
use om_rs::message::first_text;
use om_rs::results::{BuildModelResults, FromZmq};
use zeromq::ZmqMessage;

fn parsed(text: &str) -> (String, String) {
    let message = ZmqMessage::from(text);
    assert!(BuildModelResults::is_readable(&message));
    match BuildModelResults::from_zmq(message) {
        Ok(results) => (results.exec_path, results.xml_file_name),
        Err(_) => panic!("not parsed: {text}"),
    }
}

fn refused(message: ZmqMessage) -> Vec<Bytes> {
    assert!(BuildModelResults::is_readable(&message));
    match BuildModelResults::from_zmq(message) {
        Err(FromZmqError::BuildModelResultsParseError { bytes }) => bytes,
        _ => panic!("not refused"),
    }
}

fn pair(a: &str, b: &str) -> (String, String) {
    (a.to_string(), b.to_string())
}

#[test]
fn a_reported_build_is_read_back() {
    let reply = "{\"/tmp/om/Test\",\"Test_init.xml\"}\n";
    assert_eq!(parsed(reply), pair("/tmp/om/Test", "Test_init.xml"));
}

#[test]
fn a_build_is_read_back_whatever_surrounds_it() {
    let text = "\n\t \u{a0}{\"/tmp/om/Test\",\"Test_init.xml\"} \r\n\n";
    assert_eq!(parsed(text), pair("/tmp/om/Test", "Test_init.xml"));
    let frames = vec![Bytes::from(text), Bytes::from(vec![0xffu8]), Bytes::new()];
    let message = ZmqMessage::try_from(frames).unwrap();
    assert!(BuildModelResults::is_readable(&message));
    match BuildModelResults::from_zmq(message) {
        Ok(results) => assert_eq!(results.xml_file_name, "Test_init.xml"),
        Err(_) => panic!("not parsed"),
    }
}

#[test]
fn white_space_inside_the_array_is_kept() {
    assert_eq!(parsed("  {\"a\", \"b \"}  "), pair("a", " b "));
}

#[test]
fn any_one_byte_delimiters_are_taken_off() {
    assert_eq!(parsed("(a,b)"), pair("a", "b"));
    assert_eq!(parsed("a,b,c"), pair("", "b"));
    assert_eq!(parsed("\"{a,b}\""), pair("a", "b"));
}

#[test]
fn elements_past_the_second_are_ignored() {
    assert_eq!(parsed("{a,b,c,d}"), pair("a", "b"));
    assert_eq!(parsed("{,}"), pair("", ""));
}

#[test]
fn an_array_of_one_element_is_refused() {
    assert_eq!(refused(ZmqMessage::from("{a}")), vec![Bytes::from("{a}")]);
    assert_eq!(refused(ZmqMessage::from("{}\n")), vec![Bytes::from("{}\n")]);
}

#[test]
fn a_failed_build_is_read_as_two_empty_names() {
    assert_eq!(parsed("{\"\",\"\"}\n"), pair("", ""));
}

#[test]
fn bytes_that_are_no_text_are_refused_with_every_frame() {
    let frames = vec![Bytes::from(vec![0xffu8, 0xfe]), Bytes::from("{a,b}")];
    let message = ZmqMessage::try_from(frames.clone()).unwrap();
    assert_eq!(refused(message), frames);
}

#[test]
fn a_message_without_frames_is_refused() {
    let mut message = ZmqMessage::from("{a,b}");
    let _ = message.split_off(0);
    assert_eq!(refused(message), Vec::<Bytes>::new());
}

#[test]
fn only_the_first_frame_is_read() {
    let frames = vec![Bytes::from("{a,b}"), Bytes::from("{c,d}")];
    let message = ZmqMessage::try_from(frames).unwrap();
    match BuildModelResults::from_zmq(message) {
        Ok(results) => assert_eq!(results.exec_path, "a"),
        Err(_) => panic!("not parsed"),
    }
}

#[test]
fn texts_without_delimiters_are_not_readable() {
    for text in ["", "\n", "{", "\"\"", "\u{e9}", "\u{e9}a,b}", "{a,b\u{e9}", "{\"\"\""] {
        assert!(!BuildModelResults::is_readable(&ZmqMessage::from(text)), "{text}");
    }
    for text in ["{}", "ab", "{\u{e9},b}", " {a,b} "] {
        assert!(BuildModelResults::is_readable(&ZmqMessage::from(text)), "{text}");
    }
}

#[test]
fn the_first_text_of_a_message_is_that_of_its_first_frame() {
    assert_eq!(first_text(&ZmqMessage::from("h\u{e9}")), Some("h\u{e9}".to_string()));
    assert_eq!(first_text(&ZmqMessage::from(vec![0x80u8])), None);
    let mut empty = ZmqMessage::from("a");
    let _ = empty.split_off(0);
    assert_eq!(first_text(&empty), None);
}
