use codec_stream::buffer::PartialBuffer;
use codec_stream::encoder::{should_suspend, Encoder, PollEvent, Step};
use codec_stream::flate::FlateEncoder;

/// A scripted upstream source with the peek/consume shape the scheduler's
/// caller drives: it yields views of the current chunk's unconsumed bytes,
/// optionally reports "not ready" once between chunks, and signals
/// end-of-data with an empty chunk.
struct Source {
    chunks: Vec<Vec<u8>>,
    idx: usize,
    off: usize,
    pending_between: bool,
    never_ready: bool,
}

impl Source {
    fn new(chunks: Vec<Vec<u8>>, pending_between: bool) -> Self {
        Source { chunks, idx: 0, off: 0, pending_between, never_ready: false }
    }

    fn peek(&mut self) -> PollEvent {
        if self.never_ready {
            return PollEvent::Pending;
        }
        loop {
            if self.idx >= self.chunks.len() {
                return PollEvent::Chunk(Vec::new());
            }
            if self.off < self.chunks[self.idx].len() {
                return PollEvent::Chunk(self.chunks[self.idx][self.off..].to_vec());
            }
            self.idx += 1;
            self.off = 0;
            if self.pending_between {
                return PollEvent::Pending;
            }
        }
    }

    fn consume(&mut self, n: usize) {
        self.off += n;
    }
}

enum PollOut {
    Pending,
    Data(Vec<u8>),
}

/// One poll call: a fresh output region of `cap` bytes, stepped until the
/// scheduler suspends or finishes the call, exactly as an embedding would
/// drive it.
fn poll_once(enc: &mut Encoder<u32, FlateEncoder>, src: &mut Source, cap: usize) -> PollOut {
    let mut out = PartialBuffer::new(vec![0u8; cap]);
    let mut consumed = false;
    loop {
        let ev = if enc.needs_event() { src.peek() } else { PollEvent::Pending };
        match enc.do_poll_read(ev, &mut out, &mut consumed) {
            Ok((n, step)) => {
                src.consume(n);
                if let Step::Again = step {
                    continue;
                }
                if should_suspend(step, out.written_len()) {
                    return PollOut::Pending;
                }
                return PollOut::Data(out.into_written());
            }
            Err(e) => panic!("codec error: {:?}", e),
        }
    }
}

/// Polls the stream to completion, concatenating everything produced.
/// Completion is a poll that finishes with zero bytes produced.
fn run_to_end(
    chunks: Vec<Vec<u8>>,
    pending_between: bool,
    cap: usize,
    level: u32,
    zlib_header: bool,
) -> Vec<u8> {
    let mut enc = Encoder::new(0u32, FlateEncoder::new(level, zlib_header));
    let mut src = Source::new(chunks, pending_between);
    let mut all = Vec::new();
    let mut polls = 0usize;
    loop {
        polls += 1;
        assert!(polls < 1_000_000, "stream made no progress");
        match poll_once(&mut enc, &mut src, cap) {
            PollOut::Pending => continue,
            PollOut::Data(d) => {
                if d.is_empty() {
                    return all;
                }
                all.extend_from_slice(&d);
            }
        }
    }
}

fn inflate_all(data: &[u8], zlib_header: bool, cap: usize) -> Vec<u8> {
    let mut d = flate2::Decompress::new(zlib_header);
    let mut out = vec![0u8; cap];
    let status = d
        .decompress(data, &mut out, flate2::FlushDecompress::Finish)
        .expect("inflate failed");
    assert!(matches!(status, flate2::Status::StreamEnd));
    out.truncate(d.total_out() as usize);
    out
}

fn pattern_bytes(total: usize) -> Vec<u8> {
    let pat = [0xDEu8, 0xAD, 0xBE, 0xEF];
    (0..total).map(|i| pat[i % 4]).collect()
}

#[test]
fn four_large_chunks_with_gaps_through_sixteen_byte_polls() {
    let data = pattern_bytes(200_000);
    let chunks: Vec<Vec<u8>> = data.chunks(50_000).map(|c| c.to_vec()).collect();
    assert_eq!(chunks.len(), 4);

    let produced = run_to_end(chunks, true, 16, 6, true);
    assert!(produced.len() < 200_000);
    assert_eq!(inflate_all(&produced, true, 201_000), data);
}

#[test]
fn arbitrary_small_chunks_and_one_byte_polls_lose_nothing() {
    let data = b"incremental transforms must not lose or duplicate bytes".to_vec();
    let chunks: Vec<Vec<u8>> = data.chunks(7).map(|c| c.to_vec()).collect();
    let produced = run_to_end(chunks, false, 1, 6, false);
    assert_eq!(inflate_all(&produced, false, 4096), data);
}

#[test]
fn empty_input_yields_the_minimal_frame() {
    let raw = run_to_end(Vec::new(), false, 16, 6, false);
    let zlib = run_to_end(Vec::new(), false, 16, 6, true);
    assert!(!raw.is_empty());
    assert!(raw.len() < zlib.len());
    assert_eq!(inflate_all(&raw, false, 64), Vec::<u8>::new());
    assert_eq!(inflate_all(&zlib, true, 64), Vec::<u8>::new());
}

#[test]
fn source_never_ready_keeps_polls_pending_without_error() {
    let mut enc = Encoder::new(0u32, FlateEncoder::new(6, true));
    let mut src = Source::new(Vec::new(), false);
    src.never_ready = true;
    for _ in 0..3 {
        match poll_once(&mut enc, &mut src, 16) {
            PollOut::Pending => {}
            PollOut::Data(_) => panic!("expected a pending poll"),
        }
        // still waiting for upstream: the stream stays in its reading phase
        assert!(enc.needs_event());
    }
    // once the source ends, the stream still finishes normally
    src.never_ready = false;
    let mut all = Vec::new();
    loop {
        match poll_once(&mut enc, &mut src, 16) {
            PollOut::Pending => continue,
            PollOut::Data(d) => {
                if d.is_empty() {
                    break;
                }
                all.extend_from_slice(&d);
            }
        }
    }
    assert_eq!(inflate_all(&all, true, 64), Vec::<u8>::new());
}

#[test]
fn finished_stream_reports_completion_forever() {
    let mut enc = Encoder::new(0u32, FlateEncoder::new(6, true));
    let mut src = Source::new(vec![b"tail".to_vec()], false);
    let mut all = Vec::new();
    loop {
        match poll_once(&mut enc, &mut src, 16) {
            PollOut::Pending => continue,
            PollOut::Data(d) => {
                if d.is_empty() {
                    break;
                }
                all.extend_from_slice(&d);
            }
        }
    }
    assert_eq!(inflate_all(&all, true, 64), b"tail".to_vec());
    // terminal idempotence: every further poll completes at once, empty-handed
    for _ in 0..5 {
        match poll_once(&mut enc, &mut src, 16) {
            PollOut::Data(d) => assert!(d.is_empty()),
            PollOut::Pending => panic!("a finished stream must not suspend"),
        }
    }
}

#[test]
fn accessors_expose_the_owned_reader() {
    let enc = FlateEncoder::new(6, true);
    let mut stream = Encoder::new(7u32, enc);
    assert_eq!(*stream.get_ref(), 7);
    *stream.get_mut() = 8;
    assert_eq!(*stream.get_ref(), 8);
    assert_eq!(stream.into_inner(), 8);
}
