use orjson::args::accepts_single_argument;
use orjson::deserialize::{dispatch_buffer, Dispatch, FAST_PATH_BYTES_READ};
use orjson::loads_iter::LoadsIterState;
use orjson::whitespace::{is_ascii_whitespace, skip_whitespace};

#[test]
fn whitespace_bytes_match_std() {
    for b in 0u8..=255 {
        assert_eq!(is_ascii_whitespace(b), b.is_ascii_whitespace(), "byte {}", b);
    }
}

#[test]
fn skip_whitespace_stops_at_first_other_byte() {
    assert_eq!(skip_whitespace(b"  \t\n{}", 0), 4);
    assert_eq!(skip_whitespace(b"  \t\n{}", 4), 4);
    assert_eq!(skip_whitespace(b"ab", 0), 0);
    assert_eq!(skip_whitespace(b"\r\x0c ", 0), 3);
    assert_eq!(skip_whitespace(b"", 0), 0);
    assert_eq!(skip_whitespace(b"x  ", 1), 3);
    // vertical tab is not whitespace here
    assert_eq!(skip_whitespace(b"\x0b1", 0), 0);
}

#[test]
fn skip_whitespace_is_idempotent() {
    let buf = b" \n [1] \t {}";
    let stop = skip_whitespace(buf, 0);
    assert_eq!(stop, 3);
    assert_eq!(skip_whitespace(buf, stop), stop);
    assert_eq!(skip_whitespace(buf, 1), stop);
}

#[test]
fn dispatch_fast_paths() {
    assert_eq!(dispatch_buffer(b"[]"), Dispatch::EmptyList);
    assert_eq!(dispatch_buffer(b"{}"), Dispatch::EmptyDict);
    assert_eq!(dispatch_buffer(b"\"\""), Dispatch::EmptyStr);
    assert_eq!(FAST_PATH_BYTES_READ, 2);
}

#[test]
fn dispatch_parses_everything_else() {
    assert_eq!(dispatch_buffer(b"[ ]"), Dispatch::Parse);
    assert_eq!(dispatch_buffer(b"[]\n"), Dispatch::Parse);
    assert_eq!(dispatch_buffer(b" []"), Dispatch::Parse);
    assert_eq!(dispatch_buffer(b"]["), Dispatch::Parse);
    assert_eq!(dispatch_buffer(b"{]"), Dispatch::Parse);
    assert_eq!(dispatch_buffer(b"12"), Dispatch::Parse);
    assert_eq!(dispatch_buffer(b"1"), Dispatch::Parse);
    assert_eq!(dispatch_buffer(b""), Dispatch::Parse);
    assert_eq!(dispatch_buffer(b"[1]"), Dispatch::Parse);
}

#[test]
fn constructor_arguments() {
    assert!(accepts_single_argument(1, false));
    assert!(!accepts_single_argument(1, true));
    assert!(!accepts_single_argument(0, false));
    assert!(!accepts_single_argument(2, false));
    assert!(!accepts_single_argument(-1, false));
}

#[test]
fn fresh_iterator_needs_buffer() {
    let s = LoadsIterState::new();
    assert!(s.needs_buffer());
    assert_eq!(s.offset(), 0);
}

/// Drives the iterator over `buf` as the extension type does: the rest of
/// the buffer from each document's start is dispatched, and the parser is
/// stood in for by one that reads two bytes (every document here is two
/// bytes long).
fn documents(buf: &[u8]) -> Vec<(usize, Dispatch)> {
    let mut s = LoadsIterState::new();
    let mut out = Vec::new();
    loop {
        if s.needs_buffer() {
            s.attach_buffer(buf.len());
        }
        match s.next_document(buf) {
            None => return out,
            Some(start) => {
                out.push((start, dispatch_buffer(&buf[start..])));
                s.consumed(start, 2);
            }
        }
    }
}

#[test]
fn iterates_whitespace_separated_documents() {
    let docs = documents(b"  []\n{}\t\"\"  \n");
    assert_eq!(
        docs,
        vec![(2, Dispatch::Parse), (5, Dispatch::Parse), (8, Dispatch::Parse)]
    );
}

#[test]
fn only_a_last_document_with_nothing_after_it_takes_the_fast_path() {
    let docs = documents(b"[] {}");
    assert_eq!(docs, vec![(0, Dispatch::Parse), (3, Dispatch::EmptyDict)]);
    let docs = documents(b"\n\"\"");
    assert_eq!(docs, vec![(1, Dispatch::EmptyStr)]);
}

#[test]
fn iteration_of_blank_buffer_stops_at_once() {
    assert!(documents(b"").is_empty());
    assert!(documents(b" \n\t\r ").is_empty());
}

#[test]
fn stop_does_not_move_offset_and_repeats() {
    let buf = b"[]   ";
    let mut s = LoadsIterState::new();
    s.attach_buffer(buf.len());
    assert_eq!(s.next_document(buf), Some(0));
    s.consumed(0, 2);
    assert_eq!(s.offset(), 2);
    assert_eq!(s.next_document(buf), None);
    assert_eq!(s.offset(), 2);
    assert_eq!(s.next_document(buf), None);
}

#[test]
fn failed_parse_leaves_offset_before_whitespace() {
    let buf = b"  x";
    let mut s = LoadsIterState::new();
    s.attach_buffer(buf.len());
    assert_eq!(s.next_document(buf), Some(2));
    // the parser failed: nothing is consumed
    assert_eq!(s.offset(), 0);
    assert_eq!(s.next_document(buf), Some(2));
}
