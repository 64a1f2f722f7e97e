use gmsv_async_stdout::message::LogMessage;
use gmsv_async_stdout::writer::{banner_line, Banner, ChannelEvent, LogWriter, Phase, Request, WriteAction};

fn msg(text: &str) -> ChannelEvent {
    let mut c = text.as_bytes().to_vec();
    c.push(0);
    ChannelEvent::Message(LogMessage::from_c_str(&c).unwrap())
}

fn describe(actions: &[WriteAction]) -> Vec<String> {
    actions
        .iter()
        .map(|a| match a {
            WriteAction::Banner(Banner::Startup) => "startup".to_string(),
            WriteAction::Banner(Banner::Shutdown) => "shutdown".to_string(),
            WriteAction::Bytes(b) => format!("bytes:{}", String::from_utf8(b.clone()).unwrap()),
            WriteAction::Flush => "flush".to_string(),
        })
        .collect()
}

#[test]
fn new_writer_starts_with_banner_and_flush() {
    let mut w = LogWriter::new();
    assert_eq!(w.phase(), Phase::Starting);
    assert_eq!(w.next_request(), Request::Start);
    let a = w.start();
    assert_eq!(describe(&a), vec!["startup", "flush"]);
    assert_eq!(w.phase(), Phase::Polling);
    assert_eq!(w.next_request(), Request::TryReceive);
}

#[test]
fn message_while_polling_is_written_at_once() {
    let mut w = LogWriter::new();
    w.start();
    let a = w.handle(msg("one"));
    assert_eq!(describe(&a), vec!["bytes:one"]);
    assert_eq!(w.next_request(), Request::TryReceive);
}

#[test]
fn empty_channel_flushes_then_blocks() {
    let mut w = LogWriter::new();
    w.start();
    let a = w.handle(ChannelEvent::Empty);
    assert_eq!(describe(&a), vec!["flush"]);
    assert_eq!(w.phase(), Phase::Waiting);
    assert_eq!(w.next_request(), Request::Receive);
    let a = w.handle(msg("late"));
    assert_eq!(describe(&a), vec!["bytes:late"]);
    assert_eq!(w.phase(), Phase::Polling);
}

#[test]
fn disconnect_while_polling_writes_shutdown_banner() {
    let mut w = LogWriter::new();
    w.start();
    let a = w.handle(ChannelEvent::Disconnected);
    assert_eq!(describe(&a), vec!["shutdown", "flush"]);
    assert_eq!(w.phase(), Phase::Finished);
    assert_eq!(w.next_request(), Request::Stop);
}

#[test]
fn disconnect_while_waiting_goes_back_to_polling() {
    let mut w = LogWriter::new();
    w.start();
    w.handle(ChannelEvent::Empty);
    let a = w.handle(ChannelEvent::Disconnected);
    assert!(a.is_empty());
    assert_eq!(w.phase(), Phase::Polling);
    let a = w.handle(ChannelEvent::Disconnected);
    assert_eq!(describe(&a), vec!["shutdown", "flush"]);
}

#[test]
fn law_messages_written_in_order_on_a_session() {
    let mut w = LogWriter::new();
    let mut out = describe(&w.start());
    let events = vec![
        msg("a"),
        msg("b"),
        ChannelEvent::Empty,
        msg("c"),
        ChannelEvent::Empty,
        ChannelEvent::Disconnected,
        ChannelEvent::Disconnected,
    ];
    for ev in events {
        out.extend(describe(&w.handle(ev)));
    }
    assert_eq!(
        out,
        vec!["startup", "flush", "bytes:a", "bytes:b", "flush", "bytes:c", "flush", "shutdown", "flush"]
    );
    let written: Vec<&String> = out.iter().filter(|s| s.starts_with("bytes:")).collect();
    assert_eq!(written, vec!["bytes:a", "bytes:b", "bytes:c"]);
    assert_eq!(w.phase(), Phase::Finished);
}

#[test]
fn law_flushed_when_idle_on_a_session() {
    let mut w = LogWriter::new();
    w.start();
    w.handle(msg("x"));
    let a = w.handle(ChannelEvent::Empty);
    assert_eq!(w.phase(), Phase::Waiting);
    assert!(matches!(a.last(), Some(WriteAction::Flush)));
}

#[test]
fn over_long_formatted_message_is_written_cut() {
    let mut w = LogWriter::new();
    let mut out = describe(&w.start());
    let mut buf = vec![b'z'; 4095];
    buf.push(0);
    out.extend(describe(&w.handle(ChannelEvent::Message(LogMessage::from_formatted(buf, 5000)))));
    out.extend(describe(&w.handle(ChannelEvent::Disconnected)));
    assert_eq!(out.len(), 5);
    assert_eq!(out[0], "startup");
    assert_eq!(out[2], format!("bytes:{}", "z".repeat(4095)));
    assert_eq!(&out[3..], &["shutdown".to_string(), "flush".to_string()]);
}

#[test]
fn banner_lines_are_exact() {
    assert_eq!(
        banner_line(Banner::Startup, "2021-06-01 12:00:00 +01:00"),
        b"====== gmsv_async_stdout 2021-06-01 12:00:00 +01:00 ======\n".to_vec()
    );
    assert_eq!(
        banner_line(Banner::Shutdown, "T"),
        b"====== SERVER SHUTTING DOWN T ======\n".to_vec()
    );
    assert_eq!(banner_line(Banner::Startup, ""), b"====== gmsv_async_stdout  ======\n".to_vec());
}
