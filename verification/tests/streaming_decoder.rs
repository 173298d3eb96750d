//! Tests of the stream decoder: framing, chunk-boundary independence,
//! the termination sentinel, and truncated streams.

use opencode::streaming::{SseDecoder, SseStep};

/// Pulls every available event, collecting payloads until the decoder
/// asks for more bytes or reports termination.
fn drain(decoder: &mut SseDecoder, payloads: &mut Vec<String>) -> bool {
    loop {
        match decoder.next_event() {
            SseStep::Chunk(s) => payloads.push(s),
            SseStep::Done => return true,
            SseStep::NeedMore => return false,
        }
    }
}

#[test]
fn one_shot_frame_yields_one_chunk_then_terminates() {
    let mut decoder = SseDecoder::new();
    decoder.feed(b"data: {\"content\":\"hi\"}\n\ndata: [DONE]\n\n");
    let mut payloads = Vec::new();
    let done = drain(&mut decoder, &mut payloads);
    assert!(done);
    assert_eq!(payloads, vec!["{\"content\":\"hi\"}".to_string()]);
    assert!(decoder.finish().is_ok());
}

#[test]
fn split_frames_yield_identical_chunks() {
    let bytes: &[u8] = b"data: {\"content\":\"hi\"}\n\ndata: {\"content\":\"there\"}\n\ndata: [DONE]\n\n";

    let mut whole = SseDecoder::new();
    whole.feed(bytes);
    let mut whole_payloads = Vec::new();
    let whole_done = drain(&mut whole, &mut whole_payloads);

    // The same bytes, fed one at a time with a pull between each feed.
    let mut split = SseDecoder::new();
    let mut split_payloads = Vec::new();
    let mut split_done = false;
    for b in bytes {
        split.feed(std::slice::from_ref(b));
        if drain(&mut split, &mut split_payloads) {
            split_done = true;
        }
    }

    assert!(whole_done);
    assert!(split_done);
    assert_eq!(whole_payloads, split_payloads);
    assert_eq!(
        whole_payloads,
        vec!["{\"content\":\"hi\"}".to_string(), "{\"content\":\"there\"}".to_string()]
    );
}

#[test]
fn truncated_stream_fails_at_end_of_input() {
    let mut decoder = SseDecoder::new();
    decoder.feed(b"data: {\"incomplete");
    let mut payloads = Vec::new();
    let done = drain(&mut decoder, &mut payloads);
    assert!(!done);
    assert!(payloads.is_empty());
    let finish = decoder.finish();
    assert!(finish.is_err());
    let message = finish.err().unwrap();
    assert!(message.contains("ended unexpectedly with incomplete data"));
    assert!(message.contains("{\"incomplete"));
}

#[test]
fn comment_and_blank_lines_are_ignored() {
    let mut decoder = SseDecoder::new();
    decoder.feed(b": keep-alive\n\nevent: ping\ndata: {\"n\":1}\n");
    let mut payloads = Vec::new();
    let done = drain(&mut decoder, &mut payloads);
    assert!(!done);
    assert_eq!(payloads, vec!["{\"n\":1}".to_string()]);
    assert!(decoder.finish().is_ok());
}

#[test]
fn data_after_done_is_not_delivered() {
    let mut decoder = SseDecoder::new();
    decoder.feed(b"data: [DONE]\n\ndata: {\"late\":true}\n\n");
    let mut payloads = Vec::new();
    let done = drain(&mut decoder, &mut payloads);
    assert!(done);
    assert!(payloads.is_empty());
    assert!(decoder.finish().is_ok());
}

#[test]
fn lines_are_trimmed_as_unicode_whitespace() {
    // A no-break space around the frame is whitespace in the wire
    // text's sense and must not hide the data line or widen the
    // payload.
    let mut decoder = SseDecoder::new();
    decoder.feed("\u{00A0}data: {\"n\":1}\u{00A0}\n".as_bytes());
    let mut payloads = Vec::new();
    let done = drain(&mut decoder, &mut payloads);
    assert!(!done);
    assert_eq!(payloads, vec!["{\"n\":1}".to_string()]);
}
