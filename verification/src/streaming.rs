//! Decoder for the line-delimited streaming wire protocol: `data:`
//! lines carrying JSON payloads, blank or comment lines that are
//! ignored, and the `[DONE]` sentinel that ends a stream.
//!
//! The decoder is an explicit state machine over bytes: the buffer is
//! split at line feeds, each complete line is lossily decoded as text
//! and trimmed of whitespace, and the trimmed line is classified.
//! The contracts speak only of the concatenation of everything fed so
//! far, so the decoded sequence cannot depend on where the transport
//! happened to split its fragments; [`lemma_sse_events_split`] states
//! that independence once and for all.

use vstd::prelude::*;

verus! {

use crate::text::{lossy_of, lossy_string, trimmed, trimmed_substring};

/// One protocol line: the raw bytes lossily decoded as text, trimmed.
pub open spec fn line_text(l: Seq<u8>) -> Seq<char> {
    trimmed(lossy_of(l))
}

/// A line that carries the `data:` prefix.
pub open spec fn line_is_data(l: Seq<u8>) -> bool {
    line_text(l).len() >= 5 && line_text(l).take(5) == "data:"@
}

/// The payload of a data line: what follows the prefix, trimmed.
pub open spec fn line_payload(l: Seq<u8>) -> Seq<char> {
    trimmed(line_text(l).skip(5))
}

/// A data line whose payload is the termination sentinel.
pub open spec fn line_is_done(l: Seq<u8>) -> bool {
    line_is_data(l) && line_payload(l) == "[DONE]"@
}

/// A data line that yields a chunk: not the sentinel, not empty.
pub open spec fn line_yields(l: Seq<u8>) -> bool {
    line_is_data(l) && !line_is_done(l) && line_payload(l).len() > 0
}

/// The index of the first line feed, or `s.len()` when there is none.
pub open spec fn find_nl(s: Seq<u8>) -> nat
    decreases s.len(),
{
    if s.len() == 0 {
        0
    } else if s[0] == 10 {
        0
    } else {
        1 + find_nl(s.skip(1))
    }
}

/// The payloads of the complete data lines of `s`, up to (and not
/// past) a `[DONE]` line.
pub open spec fn sse_events(s: Seq<u8>) -> Seq<Seq<char>>
    decreases s.len(),
{
    let n = find_nl(s) as int;
    if n >= s.len() {
        Seq::empty()
    } else {
        let line = s.take(n);
        let rest = s.skip(n + 1);
        if line_is_done(line) {
            Seq::empty()
        } else if line_yields(line) {
            seq![line_payload(line)] + sse_events(rest)
        } else {
            sse_events(rest)
        }
    }
}

/// Whether a complete `[DONE]` line occurs in `s` (before which every
/// complete line was decoded).
pub open spec fn sse_done(s: Seq<u8>) -> bool
    decreases s.len(),
{
    let n = find_nl(s) as int;
    if n >= s.len() {
        false
    } else if line_is_done(s.take(n)) {
        true
    } else {
        sse_done(s.skip(n + 1))
    }
}

/// The unterminated tail of `s`: what follows its last line feed.
pub open spec fn sse_tail(s: Seq<u8>) -> Seq<u8>
    decreases s.len(),
{
    let n = find_nl(s) as int;
    if n >= s.len() {
        s
    } else {
        sse_tail(s.skip(n + 1))
    }
}

/// `find_nl` finds the first line feed: everything before it is not
/// one, and it is one unless there is none.
pub proof fn lemma_find_nl(s: Seq<u8>)
    ensures
        find_nl(s) <= s.len(),
        find_nl(s) < s.len() ==> s[find_nl(s) as int] == 10,
        forall|i: int| 0 <= i < find_nl(s) ==> s[i] != 10,
    decreases s.len(),
{
    if s.len() > 0 && s[0] != 10 {
        lemma_find_nl(s.skip(1));
        assert(forall|i: int| 0 <= i < find_nl(s.skip(1)) ==> s.skip(1)[i] != 10);
        assert(forall|i: int| 1 <= i < find_nl(s) ==> s[i] == s.skip(1)[i - 1]);
    }
}

/// Any position with no line feed before it and a line feed (or the
/// end) at it is the one `find_nl` finds.
pub proof fn lemma_find_nl_char(s: Seq<u8>, m: int)
    requires
        0 <= m <= s.len(),
        forall|i: int| 0 <= i < m ==> s[i] != 10,
        m < s.len() ==> s[m] == 10,
    ensures
        find_nl(s) == m,
    decreases m,
{
    if m == 0 {
        if s.len() > 0 {
            assert(s[0] == 10);
        }
    } else {
        assert(s[0] != 10);
        lemma_find_nl_char(s.skip(1), m - 1);
    }
}

/// A block consisting of one line-feed-free line plus its line feed.
pub proof fn lemma_line_block(line: Seq<u8>)
    requires
        forall|i: int| 0 <= i < line.len() ==> line[i] != 10,
    ensures
        sse_tail(line.push(10)).len() == 0,
        sse_done(line.push(10)) == line_is_done(line),
        sse_events(line.push(10)) == (if line_yields(line) {
            seq![line_payload(line)]
        } else {
            Seq::<Seq<char>>::empty()
        }),
{
    let b = line.push(10);
    lemma_find_nl_char(b, line.len() as int);
    assert(b.take(line.len() as int) =~= line);
    let rest = b.skip(line.len() + 1 as int);
    assert(rest =~= Seq::<u8>::empty());
    assert(find_nl(rest) as int >= rest.len());
    lemma_sse_no_line(rest);
    if line_yields(line) {
        assert(sse_events(b) =~= seq![line_payload(line)] + sse_events(rest));
        assert(seq![line_payload(line)] + Seq::<Seq<char>>::empty() =~= seq![line_payload(line)]);
    }
}

/// Decoding distributes over concatenation: after a cleanly processed,
/// unterminated prefix, the events of the whole input are the events
/// of the prefix followed by the events of the remainder.  This is the
/// decoder's chunk-boundary independence: the decoded sequence is a
/// function of the concatenated bytes alone, wherever the transport
/// split them.
pub proof fn lemma_sse_events_split(a: Seq<u8>, b: Seq<u8>)
    requires
        sse_tail(a).len() == 0,
        !sse_done(a),
    ensures
        sse_events(a + b) == sse_events(a) + sse_events(b),
        sse_done(a + b) == sse_done(b),
        sse_tail(a + b) == sse_tail(b),
    decreases a.len(),
{
    if a.len() == 0 {
        assert(a + b =~= b);
        assert(sse_events(a) =~= Seq::<Seq<char>>::empty());
        assert(sse_events(a) + sse_events(b) =~= sse_events(b));
    } else {
        lemma_find_nl(a);
        let n = find_nl(a) as int;
        if n >= a.len() {
            // then sse_tail(a) == a, contradicting the clean prefix
            assert(sse_tail(a) == a);
            assert(false);
        }
        let line = a.take(n);
        let rest = a.skip(n + 1);
        lemma_find_nl_char(a + b, n);
        assert((a + b).take(n) =~= line);
        assert((a + b).skip(n + 1) =~= rest + b);
        assert(!line_is_done(line));
        lemma_sse_events_split(rest, b);
        if line_yields(line) {
            assert(sse_events(a + b) == seq![line_payload(line)] + (sse_events(rest) + sse_events(
                b,
            )));
            assert(sse_events(a) + sse_events(b) == (seq![line_payload(line)] + sse_events(rest))
                + sse_events(b));
            assert(seq![line_payload(line)] + (sse_events(rest) + sse_events(b)) =~= (seq![
                line_payload(line),
            ] + sse_events(rest)) + sse_events(b));
        }
    }
}

/// Once a stream is terminated, further bytes change nothing.
pub proof fn lemma_sse_done_absorbs(a: Seq<u8>, b: Seq<u8>)
    requires
        sse_done(a),
    ensures
        sse_done(a + b),
        sse_events(a + b) == sse_events(a),
    decreases a.len(),
{
    lemma_find_nl(a);
    let n = find_nl(a) as int;
    assert(n < a.len());
    let line = a.take(n);
    let rest = a.skip(n + 1);
    lemma_find_nl_char(a + b, n);
    assert((a + b).take(n) =~= line);
    assert((a + b).skip(n + 1) =~= rest + b);
    if !line_is_done(line) {
        lemma_sse_done_absorbs(rest, b);
        if line_yields(line) {
            assert(sse_events(a + b) == seq![line_payload(line)] + sse_events(rest + b));
        }
    }
}

/// Input without a complete line decodes to nothing and is all tail.
pub proof fn lemma_sse_no_line(s: Seq<u8>)
    requires
        find_nl(s) >= s.len(),
    ensures
        sse_events(s) == Seq::<Seq<char>>::empty(),
        !sse_done(s),
        sse_tail(s) == s,
{
}

/// One step of the decoder: a decoded chunk payload, normal
/// termination, or a request for more bytes.
#[derive(Debug)]
pub enum SseStep {
    /// The payload of the next `data:` line, lossily decoded and
    /// trimmed.
    Chunk(String),
    /// The stream terminated normally with the sentinel.
    Done,
    /// No complete line is buffered; feed more bytes.
    NeedMore,
}

/// The streaming decoder: a growable buffer of not yet processed
/// bytes, and the sentinel flag.  Ghost state records what has been
/// processed and what was handed out, tying both to the spec-level
/// decoding of everything fed.
pub struct SseDecoder {
    buf: Vec<u8>,
    done: bool,
    processed: Ghost<Seq<u8>>,
    delivered: Ghost<Seq<Seq<char>>>,
}

impl SseDecoder {
    /// Every byte fed so far.
    pub closed spec fn fed(&self) -> Seq<u8> {
        self.processed@ + self.buf@
    }

    /// The payloads handed out so far.
    pub closed spec fn delivered(&self) -> Seq<Seq<char>> {
        self.delivered@
    }

    /// Whether the sentinel was decoded.
    pub closed spec fn is_done(&self) -> bool {
        self.done
    }

    /// The bytes that no complete line accounts for yet.
    pub closed spec fn pending(&self) -> Seq<u8> {
        self.buf@
    }

    /// The processed prefix of the fed bytes.
    pub closed spec fn processed_prefix(&self) -> Seq<u8> {
        self.processed@
    }

    /// The decoder's invariant: the processed prefix ends at a line
    /// boundary, the sentinel flag reflects it, and everything handed
    /// out is exactly its decoding.
    pub open spec fn wf(&self) -> bool {
        &&& sse_tail(self.processed_prefix()).len() == 0
        &&& self.is_done() == sse_done(self.processed_prefix())
        &&& self.delivered() == sse_events(self.processed_prefix())
    }

    /// A fresh decoder.
    pub fn new() -> (r: SseDecoder)
        ensures
            r.wf(),
            r.fed().len() == 0,
            r.delivered().len() == 0,
            !r.is_done(),
    {
        let r = SseDecoder {
            buf: Vec::new(),
            done: false,
            processed: Ghost(Seq::empty()),
            delivered: Ghost(Seq::empty()),
        };
        proof {
            lemma_sse_no_line(r.processed_prefix());
            assert(r.fed() =~= Seq::<u8>::empty());
        }
        r
    }

    /// Appends one raw fragment from the transport, exactly as it
    /// arrived.
    pub fn feed(&mut self, data: &[u8])
        requires
            old(self).wf(),
        ensures
            final(self).wf(),
            final(self).fed() == old(self).fed() + data@,
            final(self).delivered() == old(self).delivered(),
            final(self).is_done() == old(self).is_done(),
    {
        self.buf.extend_from_slice(data);
        proof {
            assert(self.fed() =~= old(self).fed() + data@);
        }
    }

    /// Decodes as far as the buffered bytes allow: hands out the next
    /// payload, reports the sentinel, or asks for more bytes.  What
    /// comes back is determined by the bytes fed so far alone.
    pub fn next_event(&mut self) -> (r: SseStep)
        requires
            old(self).wf(),
        ensures
            final(self).wf(),
            final(self).fed() == old(self).fed(),
            final(self).is_done() ==> sse_done(final(self).fed()),
            match r {
                SseStep::Chunk(s) => {
                    &&& final(self).delivered() == old(self).delivered().push(s@)
                    &&& !final(self).is_done()
                },
                SseStep::Done => {
                    &&& final(self).is_done()
                    &&& sse_done(final(self).fed())
                    &&& final(self).delivered() == sse_events(final(self).fed())
                    &&& final(self).delivered() == old(self).delivered()
                },
                SseStep::NeedMore => {
                    &&& !final(self).is_done()
                    &&& !sse_done(final(self).fed())
                    &&& final(self).delivered() == sse_events(final(self).fed())
                    &&& final(self).delivered() == old(self).delivered()
                    &&& final(self).pending() == sse_tail(final(self).fed())
                },
            },
    {
        if self.done {
            proof {
                lemma_sse_done_absorbs(self.processed_prefix(), self.buf@);
            }
            return SseStep::Done;
        }
        loop
            invariant
                self.wf(),
                !self.done,
                self.fed() == old(self).fed(),
                self.delivered() == old(self).delivered(),
            decreases self.buf.len(),
        {
            let nl = find_newline(&self.buf);
            match nl {
                None => {
                    proof {
                        lemma_sse_no_line(self.buf@);
                        lemma_sse_events_split(self.processed_prefix(), self.buf@);
                    }
                    return SseStep::NeedMore;
                },
                Some(n) => {
                    let line = copy_range(&self.buf, 0, n);
                    let rest = copy_range(&self.buf, n + 1, self.buf.len());
                    let ghost old_buf = self.buf@;
                    let ghost old_processed = self.processed@;
                    self.buf = rest;
                    proof {
                        self.processed@ = old_processed + old_buf.take(n + 1 as int);
                        lemma_find_nl(old_buf);
                        assert(old_buf.take(n + 1 as int) =~= line@.push(10));
                        assert(forall|i: int| 0 <= i < line@.len() ==> line@[i] != 10);
                        lemma_line_block(line@);
                        lemma_sse_events_split(old_processed, line@.push(10));
                        assert(self.fed() =~= old(self).fed());
                        assert(sse_tail(self.processed_prefix()).len() == 0);
                    }
                    // One protocol line: lossily decoded, then trimmed
                    // as the wire text, whitespace in the Unicode
                    // sense.
                    let text = lossy_string(line.as_slice());
                    let t = trimmed_substring(text.as_str());
                    proof {
                        assert(t@ == line_text(line@));
                    }
                    if starts_with_data(t) {
                        let t_len = t.unicode_len();
                        let after = t.substring_char(5, t_len);
                        let payload = trimmed_substring(after);
                        proof {
                            assert(after@ =~= line_text(line@).skip(5));
                            assert(payload@ == line_payload(line@));
                        }
                        if str_is_done_marker(payload) {
                            self.done = true;
                            proof {
                                lemma_sse_done_absorbs(self.processed_prefix(), self.buf@);
                            }
                            return SseStep::Done;
                        }
                        if !payload.is_empty() {
                            proof {
                                assert(line_yields(line@));
                                self.delivered@ = self.delivered@.push(payload@);
                                assert(sse_events(self.processed_prefix()) =~= sse_events(
                                    old_processed,
                                ).push(line_payload(line@)));
                            }
                            return SseStep::Chunk(String::from_str(payload));
                        }
                        proof {
                            assert(!line_yields(line@));
                            assert(sse_events(self.processed_prefix()) =~= sse_events(
                                old_processed,
                            ));
                        }
                    } else {
                        // Not a data line: a comment or keep-alive; skip it.
                        proof {
                            assert(!line_is_data(line@));
                            assert(sse_events(self.processed_prefix()) =~= sse_events(
                                old_processed,
                            ));
                        }
                    }
                },
            }
        }
    }

    /// Handles the end of the transport: an error when an unterminated
    /// line remains, success otherwise.  The error message carries the
    /// leftover bytes for diagnosis.
    pub fn finish(&self) -> (r: Result<(), String>)
        requires
            self.wf(),
        ensures
            r is Ok <==> (self.is_done() || self.pending().len() == 0),
            r matches Err(e) ==> e@ == "SSE stream ended unexpectedly with incomplete data: "@
                + lossy_of(self.pending()),
    {
        if self.done || self.buf.len() == 0 {
            Ok(())
        } else {
            let mut msg = String::from_str("SSE stream ended unexpectedly with incomplete data: ");
            let tail = lossy_string(self.buf.as_slice());
            msg.append(tail.as_str());
            Err(msg)
        }
    }
}

/// Finds the first line feed in the buffer.
fn find_newline(v: &Vec<u8>) -> (r: Option<usize>)
    ensures
        r matches Some(n) ==> n as nat == find_nl(v@) && n < v@.len(),
        r is None ==> find_nl(v@) >= v@.len(),
{
    let mut i: usize = 0;
    while i < v.len()
        invariant
            i <= v@.len(),
            forall|k: int| 0 <= k < i ==> v@[k] != 10,
        decreases v@.len() - i,
    {
        if v[i] == 10 {
            proof {
                lemma_find_nl_char(v@, i as int);
            }
            return Some(i);
        }
        i = i + 1;
    }
    proof {
        lemma_find_nl_char(v@, v@.len() as int);
    }
    None
}

/// Copies `v[from..to]` into a fresh buffer.
fn copy_range(v: &Vec<u8>, from: usize, to: usize) -> (r: Vec<u8>)
    requires
        from <= to <= v@.len(),
    ensures
        r@ == v@.subrange(from as int, to as int),
{
    let mut r: Vec<u8> = Vec::new();
    let mut i: usize = from;
    while i < to
        invariant
            from <= i <= to <= v@.len(),
            r@ == v@.subrange(from as int, i as int),
        decreases to - i,
    {
        r.push(v[i]);
        proof {
            assert(r@ =~= v@.subrange(from as int, i + 1 as int));
        }
        i = i + 1;
    }
    r
}

/// Whether the trimmed line carries the `data:` prefix.
fn starts_with_data(t: &str) -> (r: bool)
    ensures
        r == (t@.len() >= 5 && t@.take(5) == "data:"@),
{
    proof {
        reveal_strlit("data:");
    }
    let n = t.unicode_len();
    if n >= 5 && t.get_char(0) == 'd' && t.get_char(1) == 'a' && t.get_char(2) == 't'
        && t.get_char(3) == 'a' && t.get_char(4) == ':' {
        proof {
            assert(t@.take(5) =~= "data:"@);
        }
        true
    } else {
        proof {
            if t@.len() >= 5 && t@.take(5) == "data:"@ {
                assert(t@[0] == 'd' && t@[1] == 'a' && t@[2] == 't' && t@[3] == 'a' && t@[4]
                    == ':') by {
                    assert(t@.take(5)[0] == t@[0] && t@.take(5)[1] == t@[1] && t@.take(5)[2]
                        == t@[2] && t@.take(5)[3] == t@[3] && t@.take(5)[4] == t@[4]);
                }
            }
        }
        false
    }
}

/// Whether the payload is the `[DONE]` sentinel.
fn str_is_done_marker(p: &str) -> (r: bool)
    ensures
        r == (p@ == "[DONE]"@),
{
    crate::text::str_eq(p, "[DONE]")
}

/// The diagnostic message for a payload that failed to parse as a
/// chunk: it names the offending line.
pub fn sse_parse_error_message(data: &str, parse_error: &str) -> (r: String)
    ensures
        r@ == "Failed to parse SSE data line: "@ + parse_error@ + ". Data: '"@ + data@ + "'"@,
{
    let mut msg = String::from_str("Failed to parse SSE data line: ");
    msg.append(parse_error);
    msg.append(". Data: '");
    msg.append(data);
    msg.append("'");
    msg
}

} // verus!
