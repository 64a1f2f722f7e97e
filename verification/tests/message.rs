use gmsv_async_stdout::message::{c_str_len, LogMessage};
use gmsv_async_stdout::MAXPRINTMSG;

#[test]
fn c_str_len_stops_at_first_nul() {
    assert_eq!(c_str_len(b"hello\0world\0"), 5);
    assert_eq!(c_str_len(b"\0"), 0);
    assert_eq!(c_str_len(b"a\0\0"), 1);
}

#[test]
fn empty_string_gives_no_message() {
    assert!(LogMessage::from_c_str(b"\0trailing").is_none());
}

#[test]
fn c_string_is_copied_into_zeroed_buffer() {
    let m = LogMessage::from_c_str(b"Hello console\n\0junk").unwrap();
    assert_eq!(m.text_len(), 14);
    assert_eq!(m.payload(), b"Hello console\n".to_vec());
    let buf = m.bytes();
    assert_eq!(buf.len(), MAXPRINTMSG);
    assert_eq!(&buf[..14], b"Hello console\n");
    assert!(buf[14..].iter().all(|&b| b == 0));
}

#[test]
fn c_string_filling_the_whole_buffer() {
    let mut text = vec![b'x'; MAXPRINTMSG];
    text.push(0);
    let m = LogMessage::from_c_str(&text).unwrap();
    assert_eq!(m.text_len(), MAXPRINTMSG);
    assert_eq!(m.payload().len(), MAXPRINTMSG);
}

#[test]
fn formatted_message_keeps_its_length() {
    let mut buf = vec![0u8; MAXPRINTMSG];
    buf[..3].copy_from_slice(b"abc");
    let m = LogMessage::from_formatted(buf, 3);
    assert_eq!(m.text_len(), 3);
    assert_eq!(m.payload(), b"abc".to_vec());
}

#[test]
fn over_long_formatted_message_is_cut_to_the_buffer() {
    let mut buf = vec![b'a'; MAXPRINTMSG - 1];
    buf.push(0);
    let m = LogMessage::from_formatted(buf.clone(), 5000);
    assert_eq!(m.text_len(), MAXPRINTMSG - 1);
    assert_eq!(m.payload(), vec![b'a'; MAXPRINTMSG - 1]);
    let m = LogMessage::from_formatted(buf.clone(), MAXPRINTMSG as i32);
    assert_eq!(m.text_len(), MAXPRINTMSG - 1);
    let m = LogMessage::from_formatted(buf, MAXPRINTMSG as i32 - 1);
    assert_eq!(m.text_len(), MAXPRINTMSG - 1);
}

#[test]
fn failed_formatting_gives_an_empty_message() {
    let m = LogMessage::from_formatted(vec![7u8; MAXPRINTMSG], -1);
    assert_eq!(m.text_len(), 0);
    assert!(m.payload().is_empty());
    let m = LogMessage::from_formatted(vec![7u8; MAXPRINTMSG], 0);
    assert!(m.payload().is_empty());
}
