use kickmess::log::{log_text, Log, LogEntry};
use kickmess::ringbuf_shared::RingBuf;

fn entry(b: u8) -> [u8; 128] {
    [b; 128]
}

#[test]
fn ringbuf_is_fifo_and_bounded() {
    let mut rb = RingBuf::new(3);
    assert_eq!(rb.capacity(), 3);
    assert_eq!(rb.pop(), None);
    rb.push(entry(1));
    rb.push(entry(2));
    rb.push(entry(3));
    rb.push(entry(4));
    assert_eq!(rb.pop(), Some(entry(1)));
    assert_eq!(rb.pop(), Some(entry(2)));
    rb.push(entry(5));
    assert_eq!(rb.pop(), Some(entry(3)));
    assert_eq!(rb.pop(), Some(entry(5)));
    assert_eq!(rb.pop(), None);
}

#[test]
fn ringbuf_of_zero_capacity_drops_everything() {
    let mut rb = RingBuf::new(0);
    rb.push(entry(9));
    assert_eq!(rb.pop(), None);
}

#[test]
fn entry_text_up_to_zero() {
    let e = LogEntry::from_message(b"hello");
    assert_eq!(e.text(), b"hello".to_vec());
    let long = [b'a'; 200];
    let e = LogEntry::from_message(&long);
    // 128 bytes without a zero byte: the entry has no text.
    assert_eq!(e.text(), Vec::<u8>::new());
    let e = LogEntry::from_message(&[b'a'; 127]);
    assert_eq!(e.text().len(), 127);
    let e = LogEntry::from_message(b"ab\0cd");
    assert_eq!(e.text(), b"ab".to_vec());
}

#[test]
fn lines_of_entries() {
    let entries = vec![LogEntry::from_message(b"one"), LogEntry::from_message(b""), LogEntry::from_message(b"two")];
    assert_eq!(log_text(&entries), b"one\r\n\r\ntwo\r\n".to_vec());
    assert_eq!(log_text(&vec![]), Vec::<u8>::new());
}

#[test]
fn log_collects_in_order() {
    let mut log = Log::new();
    assert_eq!(log.collect(), None);
    log.log(b"start");
    log.log("pr\u{e4}fix".as_bytes());
    assert_eq!(log.collect(), Some(String::from("start\r\npr\u{e4}fix\r\n")));
    assert_eq!(log.collect(), None);
}

#[test]
fn log_replaces_invalid_utf8() {
    let mut log = Log::new();
    log.log(&[b'x', 0xff, b'y']);
    assert_eq!(log.collect(), Some(String::from("x\u{fffd}y\r\n")));
}

#[test]
fn log_collect_empties_the_log() {
    let mut log = Log::new();
    log.log(b"a");
    log.log(b"");
    assert_eq!(log.collect(), Some(String::from("a\r\n\r\n")));
    log.log(b"b");
    assert_eq!(log.collect(), Some(String::from("b\r\n")));
}

#[test]
fn log_drops_when_full() {
    let mut log = Log::new();
    for i in 0..1100 {
        log.log(format!("{}", i).as_bytes());
    }
    let text = log.collect().unwrap();
    let lines: Vec<&str> = text.split("\r\n").filter(|l| !l.is_empty()).collect();
    assert_eq!(lines.len(), 1024);
    assert_eq!(lines[0], "0");
    assert_eq!(lines[1023], "1023");
}
