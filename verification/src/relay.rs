//! Relaying the backend's output into the log, line-buffered.
//!
//! Two relay loops run per launched process, one per output stream. The
//! driver hands each chunk of bytes it reads to a `LineBuffer`, which splits
//! on line boundaries and returns the completed lines; bytes after the last
//! newline stay buffered until a later chunk completes them. The laws below
//! say that chunk boundaries are invisible and that no byte is lost,
//! duplicated, truncated or merged across a line boundary. Each completed
//! line is then tagged with the stream it came from and the matching
//! severity.

use vstd::prelude::*;
use vstd::string::StringExecFns;
use crate::logging::Severity;
use crate::logging::format_log_line;
use crate::logging::log_line_chars;

verus! {

/// The newline byte the relay splits on.
pub const LINE_FEED: u8 = 10;

/// Which of the child's output streams a relay loop drains.
#[derive(Clone, Copy, PartialEq, Eq, Structural, Debug)]
pub enum StreamKind {
    Stdout,
    Stderr,
}

/// Standard output is relayed as information, standard error as errors.
pub open spec fn stream_severity(k: StreamKind) -> Severity {
    match k {
        StreamKind::Stdout => Severity::Info,
        StreamKind::Stderr => Severity::Error,
    }
}

pub fn severity_for_stream(k: StreamKind) -> (r: Severity)
    ensures
        r == stream_severity(k),
{
    match k {
        StreamKind::Stdout => Severity::Info,
        StreamKind::Stderr => Severity::Error,
    }
}

/// The marker that distinguishes relayed lines from the shell's own.
pub open spec fn stream_marker_chars(k: StreamKind) -> Seq<char> {
    match k {
        StreamKind::Stdout => "sidecar stdout: "@,
        StreamKind::Stderr => "sidecar stderr: "@,
    }
}

pub fn stream_marker(k: StreamKind) -> (r: &'static str)
    ensures
        r@ == stream_marker_chars(k),
{
    match k {
        StreamKind::Stdout => "sidecar stdout: ",
        StreamKind::Stderr => "sidecar stderr: ",
    }
}

/// One completed line of backend output, tagged for the log:
/// `[INFO] sidecar stdout: ...` or `[ERROR] sidecar stderr: ...`.
pub fn relay_line(k: StreamKind, line: &str) -> (r: String)
    ensures
        r@ == log_line_chars(stream_severity(k), stream_marker_chars(k) + line@),
{
    let mut m = String::from_str(stream_marker(k));
    m.append(line);
    format_log_line(severity_for_stream(k), m.as_str())
}

/// What one byte does to the relay state `(completed lines, pending tail)`:
/// a line feed completes the pending line; any other byte extends it.
pub open spec fn relay_step(st: (Seq<Seq<u8>>, Seq<u8>), b: u8) -> (Seq<Seq<u8>>, Seq<u8>) {
    if b == LINE_FEED {
        (st.0.push(st.1), Seq::empty())
    } else {
        (st.0, st.1.push(b))
    }
}

/// Running the relay over a whole chunk, byte by byte, starting with
/// `pending` bytes buffered from earlier chunks: the lines completed within
/// this chunk, and the tail left pending after it.
pub open spec fn relay_run(pending: Seq<u8>, input: Seq<u8>) -> (Seq<Seq<u8>>, Seq<u8>)
    decreases input.len(),
{
    if input.len() == 0 {
        (Seq::empty(), pending)
    } else {
        relay_step(relay_run(pending, input.drop_last()), input.last())
    }
}

/// The line buffer of one relay loop: the bytes of the line currently being
/// assembled, between two reads from the stream.
pub struct LineBuffer {
    pending: Vec<u8>,
}

impl View for LineBuffer {
    type V = Seq<u8>;

    closed spec fn view(&self) -> Seq<u8> {
        self.pending@
    }
}

impl LineBuffer {
    /// A fresh buffer with nothing pending.
    pub fn new() -> (b: Self)
        ensures
            b@ == Seq::<u8>::empty(),
    {
        LineBuffer { pending: Vec::new() }
    }

    /// The bytes buffered after the last newline seen so far.
    pub fn pending_bytes(&self) -> (r: &Vec<u8>)
        ensures
            r@ == self@,
    {
        &self.pending
    }

    /// Feeds one chunk read from the stream; returns the lines it completed,
    /// in order, without their line feeds.
    pub fn feed(&mut self, chunk: &[u8]) -> (lines: Vec<Vec<u8>>)
        ensures
            lines@.map_values(|l: Vec<u8>| l@) == relay_run(old(self)@, chunk@).0,
            final(self)@ == relay_run(old(self)@, chunk@).1,
    {
        let mut lines: Vec<Vec<u8>> = Vec::new();
        let mut i: usize = 0;
        while i < chunk.len()
            invariant
                i <= chunk.len(),
                lines@.map_values(|l: Vec<u8>| l@) == relay_run(old(self)@, chunk@.take(i as int)).0,
                self@ == relay_run(old(self)@, chunk@.take(i as int)).1,
            decreases chunk.len() - i,
        {
            let ghost prev = relay_run(old(self)@, chunk@.take(i as int));
            proof {
                assert(chunk@.take(i + 1).drop_last() =~= chunk@.take(i as int));
                assert(chunk@.take(i + 1).last() == chunk@[i as int]);
            }
            let b = chunk[i];
            if b == LINE_FEED {
                let mut done: Vec<u8> = Vec::new();
                core::mem::swap(&mut done, &mut self.pending);
                let ghost old_lines = lines@;
                lines.push(done);
                proof {
                    assert(old_lines.push(done).map_values(|l: Vec<u8>| l@)
                        =~= old_lines.map_values(|l: Vec<u8>| l@).push(done@));
                }
            } else {
                self.pending.push(b);
            }
            i = i + 1;
        }
        proof {
            assert(chunk@.take(chunk@.len() as int) =~= chunk@);
        }
        lines
    }
}

/// Chunk boundaries are invisible: feeding `a` and then `b` completes the
/// same lines, in the same order, and leaves the same tail pending as
/// feeding `a + b` at once. Reading the stream in any sized pieces relays
/// the same log lines.
pub proof fn lemma_relay_chunks_compose(pending: Seq<u8>, a: Seq<u8>, b: Seq<u8>)
    ensures
        relay_run(pending, a + b).0 == relay_run(pending, a).0 + relay_run(
            relay_run(pending, a).1,
            b,
        ).0,
        relay_run(pending, a + b).1 == relay_run(relay_run(pending, a).1, b).1,
    decreases b.len(),
{
    let mid = relay_run(pending, a);
    if b.len() == 0 {
        assert(a + b =~= a);
        assert(mid.0 + relay_run(mid.1, b).0 =~= mid.0);
    } else {
        lemma_relay_chunks_compose(pending, a, b.drop_last());
        let sub = relay_run(mid.1, b.drop_last());
        assert((a + b).drop_last() =~= a + b.drop_last());
        assert((a + b).last() == b.last());
        if b.last() == LINE_FEED {
            assert((mid.0 + sub.0).push(sub.1) =~= mid.0 + sub.0.push(sub.1));
        }
    }
}

/// The bytes of the completed lines, each closed again by its line feed.
pub open spec fn rejoined(lines: Seq<Seq<u8>>) -> Seq<u8>
    decreases lines.len(),
{
    if lines.len() == 0 {
        Seq::empty()
    } else {
        rejoined(lines.drop_last()) + lines.last() + seq![LINE_FEED]
    }
}

/// Nothing is lost, invented, truncated or merged: the completed lines,
/// rejoined with their line feeds, followed by the pending tail, are exactly
/// the bytes the relay was given.
pub proof fn lemma_relay_fidelity(pending: Seq<u8>, input: Seq<u8>)
    ensures
        rejoined(relay_run(pending, input).0) + relay_run(pending, input).1 == pending + input,
    decreases input.len(),
{
    if input.len() == 0 {
        assert(rejoined(Seq::<Seq<u8>>::empty()) + pending =~= pending + input);
    } else {
        lemma_relay_fidelity(pending, input.drop_last());
        let prev = relay_run(pending, input.drop_last());
        let c = input.last();
        if c == LINE_FEED {
            assert(prev.0.push(prev.1).drop_last() =~= prev.0);
            assert(rejoined(prev.0.push(prev.1)) + Seq::<u8>::empty()
                =~= (rejoined(prev.0) + prev.1) + seq![c]);
        } else {
            assert(rejoined(prev.0) + prev.1.push(c) =~= (rejoined(prev.0) + prev.1) + seq![c]);
        }
        assert((pending + input.drop_last()) + seq![input.last()] =~= pending + input);
    }
}

/// No completed line contains a line feed, and neither does the pending
/// tail, provided the tail carried in was clean: lines are split exactly at
/// line boundaries.
pub proof fn lemma_relay_lines_clean(pending: Seq<u8>, input: Seq<u8>)
    requires
        !pending.contains(LINE_FEED),
    ensures
        forall|i: int|
            0 <= i < relay_run(pending, input).0.len() ==> !relay_run(
                pending,
                input,
            ).0[i].contains(LINE_FEED),
        !relay_run(pending, input).1.contains(LINE_FEED),
    decreases input.len(),
{
    if input.len() > 0 {
        lemma_relay_lines_clean(pending, input.drop_last());
        let prev = relay_run(pending, input.drop_last());
        let c = input.last();
        if c == LINE_FEED {
            assert forall|i: int| 0 <= i < prev.0.push(prev.1).len() implies !prev.0.push(
                prev.1,
            )[i].contains(LINE_FEED) by {
                if i < prev.0.len() {
                    assert(prev.0.push(prev.1)[i] == prev.0[i]);
                }
            }
        } else {
            assert forall|j: int| 0 <= j < prev.1.push(c).len() implies prev.1.push(c)[j]
                != LINE_FEED by {
                if j < prev.1.len() {
                    assert(prev.1[j] != LINE_FEED);
                }
            }
            assert(!prev.1.push(c).contains(LINE_FEED));
        }
    }
}

} // verus!
