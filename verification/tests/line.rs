use frpc_supervisor::forwarder::{forward, forward_all, Forward};
use frpc_supervisor::line::{strip_line_ending, LineRead, CARRIAGE_RETURN, LINE_FEED};
use frpc_supervisor::log::{LogLevel, OutputStream};

fn read(raw: &[u8]) -> LineRead {
    LineRead::from_bytes(raw.to_vec())
}

fn text_of(read: LineRead) -> String {
    match read {
        LineRead::Line(text) => text,
        other => panic!("not a line: {:?}", other),
    }
}

#[test]
fn line_ending_bytes() {
    assert_eq!(LINE_FEED, b'\n');
    assert_eq!(CARRIAGE_RETURN, b'\r');
}

#[test]
fn strip_takes_off_a_line_feed() {
    assert_eq!(strip_line_ending(b"hello\n".to_vec()), b"hello".to_vec());
}

#[test]
fn strip_takes_off_a_carriage_return_before_the_line_feed() {
    assert_eq!(strip_line_ending(b"hello\r\n".to_vec()), b"hello".to_vec());
}

#[test]
fn strip_takes_off_one_ending_only() {
    assert_eq!(strip_line_ending(b"hello\n\n".to_vec()), b"hello\n".to_vec());
    assert_eq!(strip_line_ending(b"hello\r\r\n".to_vec()), b"hello\r".to_vec());
    assert_eq!(strip_line_ending(b"hello\n\r\n".to_vec()), b"hello\n".to_vec());
}

#[test]
fn strip_leaves_bytes_without_a_line_feed_alone() {
    assert_eq!(strip_line_ending(b"hello".to_vec()), b"hello".to_vec());
    assert_eq!(strip_line_ending(b"hello\r".to_vec()), b"hello\r".to_vec());
    assert_eq!(strip_line_ending(Vec::new()), Vec::<u8>::new());
}

#[test]
fn strip_of_a_bare_ending_is_empty() {
    assert_eq!(strip_line_ending(b"\n".to_vec()), Vec::<u8>::new());
    assert_eq!(strip_line_ending(b"\r\n".to_vec()), Vec::<u8>::new());
}

#[test]
fn no_bytes_are_the_end_of_the_stream() {
    assert!(matches!(LineRead::from_bytes(Vec::new()), LineRead::Closed));
}

#[test]
fn line_reads_without_its_ending() {
    assert_eq!(text_of(read(b"hello\n")), "hello");
    assert_eq!(text_of(read(b"hello\r\n")), "hello");
}

#[test]
fn last_line_without_ending_is_a_line() {
    assert_eq!(text_of(read(b"hello")), "hello");
    assert_eq!(text_of(read(b"hello\r")), "hello\r");
}

#[test]
fn empty_line_is_a_line_not_the_end() {
    assert_eq!(text_of(read(b"\n")), "");
    assert_eq!(text_of(read(b"\r\n")), "");
}

#[test]
fn text_beyond_ascii_is_decoded() {
    assert_eq!(text_of(read("启动成功 ✓\n".as_bytes())), "启动成功 ✓");
    assert_eq!(text_of(read("naïve café 🚀\r\n".as_bytes())), "naïve café 🚀");
}

#[test]
fn bytes_that_are_not_utf8_do_not_decode() {
    assert!(matches!(read(&[0xff, 0xfe, b'\n']), LineRead::Undecodable));
    assert!(matches!(read(&[b'o', b'k', 0x80, b'\n']), LineRead::Undecodable));
    // a sequence cut short, an overlong form, a surrogate
    assert!(matches!(read(&[0xe5, 0x90, b'\n']), LineRead::Undecodable));
    assert!(matches!(read(&[0xc0, 0xaf, b'\n']), LineRead::Undecodable));
    assert!(matches!(read(&[0xed, 0xa0, 0x80, b'\n']), LineRead::Undecodable));
}

#[test]
fn hello_written_to_stdout_gives_one_info_event_and_then_the_end() {
    // the child writes "hello\n" and exits
    let first = LineRead::from_bytes(b"hello\n".to_vec());
    let second = LineRead::from_bytes(Vec::new());
    let level = OutputStream::Stdout.level();
    match forward(level, first) {
        Forward::Emit(payload) => {
            assert_eq!(payload.msg, "hello");
            assert_eq!(payload.level, LogLevel::Info);
            assert_eq!(payload.level.as_str(), "info");
        }
        other => panic!("unexpected step {:?}", other),
    }
    assert!(matches!(forward(level, second), Forward::Stop));

    let reads = vec![read(b"hello\n"), read(b"")];
    let payloads = forward_all(level, reads);
    assert_eq!(payloads.len(), 1);
    assert_eq!(payloads[0].msg, "hello");
    assert_eq!(payloads[0].level, LogLevel::Info);
}

#[test]
fn written_lines_give_as_many_events_as_lines() {
    let written: Vec<&[u8]> = vec![b"one\r\n", b"two\r\n", b"\r\n", "四\r\n".as_bytes(), b""];
    let reads: Vec<LineRead> = written.iter().map(|raw| read(raw)).collect();
    let payloads = forward_all(OutputStream::Stderr.level(), reads);
    let texts: Vec<&str> = payloads.iter().map(|p| p.msg.as_str()).collect();
    assert_eq!(texts, vec!["one", "two", "", "四"]);
    assert!(payloads.iter().all(|p| p.level == LogLevel::Error));
}

#[test]
fn undecodable_line_in_a_stream_is_dropped_and_the_next_forwarded() {
    let written: Vec<&[u8]> = vec![b"a\n", &[0xff, b'\n'], b"b\n", b""];
    let reads: Vec<LineRead> = written.iter().map(|raw| read(raw)).collect();
    let payloads = forward_all(LogLevel::Info, reads);
    let texts: Vec<&str> = payloads.iter().map(|p| p.msg.as_str()).collect();
    assert_eq!(texts, vec!["a", "b"]);
}

#[test]
fn failed_read_in_a_stream_ends_the_forwarding() {
    let reads = vec![read(b"a\n"), LineRead::Failed, read(b"b\n")];
    let payloads = forward_all(LogLevel::Info, reads);
    assert_eq!(payloads.len(), 1);
    assert_eq!(payloads[0].msg, "a");
}
