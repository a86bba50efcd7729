use tuiserve::input::{RefusedInput, MAX_PENDING_BYTES};
use tuiserve::keys::KeyCode;
use tuiserve::mouse::mouse_report_may_overflow;
use tuiserve::types::InputParser;

#[test]
fn a_letter_is_one_key() {
    let mut parser = InputParser::default();
    let keys = parser.feed(b"a").unwrap();
    assert_eq!(keys, vec![KeyCode::Char('a')]);
    assert!(parser.pending_bytes.is_empty());
}

#[test]
fn several_keys_in_order() {
    let mut parser = InputParser::new();
    let keys = parser.feed(b"q\r\x7f").unwrap();
    assert_eq!(keys, vec![KeyCode::Char('q'), KeyCode::Enter, KeyCode::Backspace]);
}

#[test]
fn letters_and_arrows_mixed() {
    let mut parser = InputParser::default();
    let keys = parser.feed(&[b'a', 0x1b, b'[', b'B', b'q']).unwrap();
    assert_eq!(keys, vec![KeyCode::Char('a'), KeyCode::Down, KeyCode::Char('q')]);
    assert!(parser.pending_bytes.is_empty());
}

#[test]
fn escape_sequences_are_read_whole() {
    let mut parser = InputParser::default();
    let keys = parser.feed(b"\x1b[A").unwrap();
    assert_eq!(keys, vec![KeyCode::Up]);
}

#[test]
fn a_lone_escape_is_not_a_handled_key() {
    let mut parser = InputParser::default();
    let keys = parser.feed(b"\x1b").unwrap();
    assert_eq!(keys, vec![KeyCode::Other]);
    assert!(parser.pending_bytes.is_empty());
}

#[test]
fn split_sequences_wait_for_the_rest() {
    let mut parser = InputParser::default();
    let keys = parser.feed(b"\x1b[").unwrap();
    assert!(keys.is_empty());
    assert_eq!(parser.pending_bytes, b"\x1b[".to_vec());
    let keys = parser.feed(b"A").unwrap();
    assert_eq!(keys, vec![KeyCode::Up]);
    assert!(parser.pending_bytes.is_empty());
}

#[test]
fn poll_takes_one_event_at_a_time() {
    let mut parser = InputParser::default();
    parser.pending_bytes = b"ab".to_vec();
    assert_eq!(parser.next_complete_event(), Ok(Some(Some(KeyCode::Char('a')))));
    assert_eq!(parser.pending_bytes, b"b".to_vec());
    assert_eq!(parser.next_complete_event(), Ok(Some(Some(KeyCode::Char('b')))));
    assert_eq!(parser.next_complete_event(), Ok(None));
    assert!(parser.pending_bytes.is_empty());
}

#[test]
fn focus_events_are_not_keys() {
    let mut parser = InputParser::default();
    parser.pending_bytes = b"\x1b[Ix".to_vec();
    assert_eq!(parser.next_complete_event(), Ok(Some(None)));
    let keys = parser.feed(b"").unwrap();
    assert_eq!(keys, vec![KeyCode::Char('x')]);
}

#[test]
fn full_buffer_drops_its_oldest_byte() {
    let mut parser = InputParser::default();
    parser.pending_bytes = b"\x1b[".to_vec();
    parser.pending_bytes.extend(std::iter::repeat(b'1').take(MAX_PENDING_BYTES));
    let before = parser.pending_bytes.len();
    let keys = parser.feed(b"").unwrap();
    assert!(keys.is_empty());
    assert_eq!(parser.pending_bytes.len(), before - 1);
}

#[test]
fn zero_coordinate_mouse_reports_are_refused() {
    assert!(mouse_report_may_overflow(b"\x1b[<0;0;0M"));
    assert!(mouse_report_may_overflow(b"\x1b[<0;5;0m"));
    assert!(mouse_report_may_overflow(b"\x1b[32;0;0M"));
    assert!(mouse_report_may_overflow(b"\x1b[32;+0;7M"));
    assert!(!mouse_report_may_overflow(b"\x1b[<0;5;7M"));
    assert!(!mouse_report_may_overflow(b"\x1b[32;5;7M"));
    assert!(!mouse_report_may_overflow(b"\x1b[1;5A"));
    assert!(!mouse_report_may_overflow(b"\x1b[<0M"));
    let mut parser = InputParser::default();
    assert_eq!(parser.feed(b"a\x1b[<0;0;0Mb"), Err(RefusedInput));
    assert_eq!(parser.pending_bytes, b"\x1b[<0;0;0Mb".to_vec());
}

#[test]
fn mouse_reports_with_positions_are_skipped() {
    let mut parser = InputParser::default();
    let keys = parser.feed(b"\x1b[<0;5;7Mz").unwrap();
    assert_eq!(keys, vec![KeyCode::Char('z')]);
    assert!(parser.pending_bytes.is_empty());
}

#[test]
fn mouse_reports_the_decoder_rejects_first_are_not_refused() {
    assert!(!mouse_report_may_overflow(b"\x1b[<200;0;0M"));
    assert!(!mouse_report_may_overflow(b"\x1b[0;0;1M"));
    assert!(!mouse_report_may_overflow(b"\x1b[<0;70000;0M"));
    assert!(!mouse_report_may_overflow(b"\x1b[<0;1;0;\xffM"));
    assert!(!mouse_report_may_overflow(b"\x1b[<0;1;1M"));
    assert!(!mouse_report_may_overflow(b"\x1b[<0;-0;0M"));
    assert!(mouse_report_may_overflow(b"\x1b[<0;1;0;\xc3\xa9M"));
    assert!(mouse_report_may_overflow(b"\x1b[<+3;00;9M"));
    let mut parser = InputParser::default();
    let keys = parser.feed(b"\x1b[<200;0;0M").unwrap();
    assert!(keys.is_empty());
    assert_eq!(parser.pending_bytes, b"\x1b[<200;0;0M".to_vec());
    let mut parser = InputParser::default();
    let keys = parser.feed(b"\x1b[0;0;1M").unwrap();
    assert!(keys.is_empty());
}
