//! A codec step backed by a stateful DEFLATE compression engine.
//!
//! The engine communicates progress through absolute, monotonic session
//! counters of total bytes consumed and produced, rather than per-call
//! deltas. Each call here snapshots the counters before and after the
//! engine runs and advances the caller's cursors by exactly the deltas;
//! that reconciliation is the verified logic of this module, while the
//! byte-level compression mathematics stays inside the engine.

use vstd::prelude::*;

use crate::buffer::PartialBuffer;
use crate::codec::{CodecError, Encode};

verus! {

#[verifier::external_type_specification]
#[verifier::external_body]
pub struct ExCompress(flate2::Compress);

#[verifier::external_type_specification]
#[verifier::external_body]
pub struct ExCompressError(flate2::CompressError);

/// The flush directive handed to the engine on one step: keep going, force
/// a sync boundary, or finalize the session.
#[derive(Clone, Copy, Debug, PartialEq, Eq, Structural)]
pub enum FlushMode {
    NoFlush,
    SyncFlush,
    Finish,
}

/// The status the engine reports for one step.
#[derive(Clone, Copy, Debug, PartialEq, Eq, Structural)]
pub enum EngineStatus {
    /// More work may remain: input was wanted or the output filled up.
    Progress,
    /// The session is fully written out; the engine must not run again.
    StreamEnd,
    /// No forward progress was possible with the buffers as given.
    Starved,
}

/// The engine's session counter of total input bytes consumed, as
/// `flate2::Compress::total_in` reports it.
pub uninterp spec fn engine_total_in(c: flate2::Compress) -> u64;

/// The engine's session counter of total output bytes produced, as
/// `flate2::Compress::total_out` reports it.
pub uninterp spec fn engine_total_out(c: flate2::Compress) -> u64;

/// Whether the engine has recorded the end of its session: it was driven
/// with a finalize directive to completion, has emitted its final framing
/// in full, and answers stream-end at once to any further finalize call.
pub uninterp spec fn engine_done(c: flate2::Compress) -> bool;

/// Whether the engine is live for streaming: its recorded status is
/// healthy and it has accepted no finalize directive yet, so it takes
/// further transform and boundary steps.
pub uninterp spec fn engine_live(c: flate2::Compress) -> bool;

/// Whether the engine holds boundary or framing bytes it has already
/// formed but could not yet write out for want of output capacity.
pub uninterp spec fn engine_pending(c: flate2::Compress) -> bool;

/// Relies on flate2::Compress::new: a fresh engine starts with both session
/// counters at zero, live, with nothing pending and its session not ended.
/// Levels are bounded because the backend holds a debug assertion against
/// levels above ten.
#[verifier::external_body]
fn engine_new(level: u32, zlib_header: bool) -> (r: flate2::Compress)
    requires
        level <= 10,
    ensures
        engine_total_in(r) == 0,
        engine_total_out(r) == 0,
        !engine_done(r),
        engine_live(r),
        !engine_pending(r),
{
    flate2::Compress::new(flate2::Compression::new(level), zlib_header)
}

/// Relies on flate2::Compress::total_in: reads the session counter of total
/// consumed bytes.
#[verifier::external_body]
fn engine_in_count(c: &flate2::Compress) -> (r: u64)
    ensures
        r == engine_total_in(*c),
{
    c.total_in()
}

/// Relies on flate2::Compress::total_out: reads the session counter of total
/// produced bytes.
#[verifier::external_body]
fn engine_out_count(c: &flate2::Compress) -> (r: u64)
    ensures
        r == engine_total_out(*c),
{
    c.total_out()
}

/// Relies on flate2::Compress::compress: it consumes only from the input
/// suffix past `ipos` and writes only into the output suffix past `opos`,
/// advancing the 64-bit session counters by exactly the consumed and
/// written amounts. Under a no-flush directive it reports `Ok` only after
/// consuming or producing something whenever both sides had room; a
/// sync-boundary directive on a session that is not ended, with no input
/// and spare capacity, always emits boundary bytes, and spare capacity
/// left after it means nothing stayed pending; under a finalize directive
/// an `Ok` that is not yet the stream's end means the whole output suffix
/// was filled, and the stream's end marks the session as ended. On a live
/// engine a non-finalize call succeeds and keeps the engine live, a
/// starved report can only mean an empty input remainder or a full output,
/// and a finalize call with spare capacity succeeds: the backend's only
/// other failure status needs the callback-function output path, not the
/// plain buffer used here.
#[verifier::external_body]
fn engine_compress(
    c: &mut flate2::Compress,
    inbuf: &Vec<u8>,
    ipos: usize,
    outbuf: &mut Vec<u8>,
    opos: usize,
    mode: FlushMode,
) -> (r: Result<EngineStatus, flate2::CompressError>)
    requires
        ipos <= inbuf@.len(),
        opos <= old(outbuf)@.len(),
    ensures
        final(outbuf)@.len() == old(outbuf)@.len(),
        forall|i: int| 0 <= i < opos ==> final(outbuf)@[i] == old(outbuf)@[i],
        engine_total_in(*old(c)) <= engine_total_in(*final(c)),
        engine_total_in(*final(c)) - engine_total_in(*old(c)) <= inbuf@.len() - ipos,
        engine_total_out(*old(c)) <= engine_total_out(*final(c)),
        engine_total_out(*final(c)) - engine_total_out(*old(c)) <= old(outbuf)@.len() - opos,
        (r == Result::<EngineStatus, flate2::CompressError>::Ok(EngineStatus::Progress)
            && mode == FlushMode::NoFlush && ipos < inbuf@.len() && opos < old(outbuf)@.len())
            ==> (engine_total_in(*final(c)) > engine_total_in(*old(c))
                || engine_total_out(*final(c)) > engine_total_out(*old(c))),
        (r is Ok && mode == FlushMode::SyncFlush && ipos == inbuf@.len() && opos < old(outbuf)@.len() && !engine_done(*old(c))) ==> engine_total_out(*final(c)) > engine_total_out(
            *old(c),
        ),
        (r == Result::<EngineStatus, flate2::CompressError>::Ok(EngineStatus::Progress)
            && mode == FlushMode::Finish) ==> engine_total_out(*final(c)) - engine_total_out(
            *old(c),
        ) == old(outbuf)@.len() - opos,
        (r == Result::<EngineStatus, flate2::CompressError>::Ok(EngineStatus::StreamEnd)
            && mode == FlushMode::Finish) ==> engine_done(*final(c)),
        ((mode == FlushMode::NoFlush || mode == FlushMode::SyncFlush) && engine_live(*old(c)))
            ==> ((r == Result::<EngineStatus, flate2::CompressError>::Ok(EngineStatus::Progress)
                || r == Result::<EngineStatus, flate2::CompressError>::Ok(EngineStatus::Starved))
                && engine_live(*final(c))),
        (mode == FlushMode::NoFlush && engine_live(*old(c))
            && r == Result::<EngineStatus, flate2::CompressError>::Ok(EngineStatus::Starved))
            ==> (ipos == inbuf@.len() || opos == old(outbuf)@.len()),
        (mode == FlushMode::Finish && engine_live(*old(c)) && opos < old(outbuf)@.len())
            ==> (r == Result::<EngineStatus, flate2::CompressError>::Ok(EngineStatus::Progress)
                || r == Result::<EngineStatus, flate2::CompressError>::Ok(EngineStatus::StreamEnd)),
        (mode == FlushMode::SyncFlush && r is Ok && !engine_done(*old(c))
            && engine_total_out(*final(c)) - engine_total_out(*old(c)) < old(outbuf)@.len() - opos)
            ==> !engine_pending(*final(c)),
        engine_done(*old(c)) ==> engine_done(*final(c)),
{
    let flush = match mode {
        FlushMode::NoFlush => flate2::FlushCompress::None,
        FlushMode::SyncFlush => flate2::FlushCompress::Sync,
        FlushMode::Finish => flate2::FlushCompress::Finish,
    };
    match c.compress(&inbuf[ipos..], &mut outbuf[opos..], flush) {
        Ok(flate2::Status::Ok) => Ok(EngineStatus::Progress),
        Ok(flate2::Status::StreamEnd) => Ok(EngineStatus::StreamEnd),
        Ok(flate2::Status::BufError) => Ok(EngineStatus::Starved),
        Err(e) => Err(e),
    }
}

/// A codec step that compresses through a DEFLATE engine.
pub struct FlateEncoder {
    compress: flate2::Compress,
    /// Whether a flush has completed since the last transform. Only a
    /// flush that saw its boundary fully out sets it; any transform or
    /// finalize call clears it again. It makes a repeated flush
    /// short-circuit instead of emitting boundary markers forever, while
    /// an incomplete flush leaves it clear, so a later call keeps draining
    /// the same boundary instead of skipping the rest.
    flushed: bool,
    /// The byte sequence handed to the engine so far, kept alongside the
    /// engine's own consumed counter.
    fed_log: Ghost<Seq<u8>>,
}

impl FlateEncoder {
    /// A fresh compression session. `level` selects the compression level
    /// (the engine accepts zero through ten); `zlib_header` chooses the
    /// minimal-header format over the headerless raw format.
    pub fn new(level: u32, zlib_header: bool) -> (r: Self)
        requires
            level <= 10,
        ensures
            r.inv(),
            r.flushed(),
            !r.finished(),
            r.live(),
            !r.boundary_pending(),
            r.fed() == Seq::<u8>::empty(),
            r.produced_total() == 0,
    {
        FlateEncoder {
            compress: engine_new(level, zlib_header),
            flushed: true,
            fed_log: Ghost(Seq::empty()),
        }
    }

    /// One engine step: snapshot the session counters, run the engine over
    /// the two cursors' remaining regions, and advance each cursor by
    /// exactly the counter delta the engine reports.
    fn step(&mut self, input: &mut PartialBuffer, output: &mut PartialBuffer, mode: FlushMode) -> (r:
        Result<EngineStatus, CodecError>)
        requires
            old(input).inv(),
            old(output).inv(),
        ensures
            final(input).inv(),
            final(output).inv(),
            final(input).buf == old(input).buf,
            old(input).pos <= final(input).pos,
            final(output).buf@.len() == old(output).buf@.len(),
            old(output).pos <= final(output).pos,
            forall|i: int|
                0 <= i < old(output).pos ==> final(output).buf@[i] == old(output).buf@[i],
            final(self).flushed == old(self).flushed,
            r is Ok ==> final(input).pos - old(input).pos == engine_total_in(
                final(self).compress,
            ) - engine_total_in(old(self).compress),
            r is Ok ==> final(output).pos - old(output).pos == engine_total_out(
                final(self).compress,
            ) - engine_total_out(old(self).compress),
            final(self).fed() == old(self).fed() + old(input).buf@.subrange(
                old(input).pos as int,
                final(input).pos as int,
            ),
            (r == Result::<EngineStatus, CodecError>::Ok(EngineStatus::Progress)
                && mode == FlushMode::NoFlush && old(input).pos < old(input).buf@.len()
                && old(output).pos < old(output).buf@.len())
                ==> (final(input).pos > old(input).pos || final(output).pos > old(output).pos),
            (r is Ok && mode == FlushMode::SyncFlush && old(input).pos == old(input).buf@.len()
                && old(output).pos < old(output).buf@.len() && !old(self).finished())
                ==> final(output).pos > old(output).pos,
            (r == Result::<EngineStatus, CodecError>::Ok(EngineStatus::Progress)
                && mode == FlushMode::Finish) ==> final(output).pos == final(output).buf@.len(),
            (r == Result::<EngineStatus, CodecError>::Ok(EngineStatus::StreamEnd)
                && mode == FlushMode::Finish) ==> final(self).finished(),
            ((mode == FlushMode::NoFlush || mode == FlushMode::SyncFlush) && old(self).live())
                ==> ((r == Result::<EngineStatus, CodecError>::Ok(EngineStatus::Progress)
                    || r == Result::<EngineStatus, CodecError>::Ok(EngineStatus::Starved))
                    && final(self).live()),
            (mode == FlushMode::NoFlush && old(self).live()
                && r == Result::<EngineStatus, CodecError>::Ok(EngineStatus::Starved))
                ==> (old(input).pos == old(input).buf@.len() || old(output).pos == old(output).buf@.len()),
            (mode == FlushMode::Finish && old(self).live() && old(output).pos < old(output).buf@.len())
                ==> (r == Result::<EngineStatus, CodecError>::Ok(EngineStatus::Progress)
                    || r == Result::<EngineStatus, CodecError>::Ok(EngineStatus::StreamEnd)),
            (mode == FlushMode::SyncFlush && r is Ok && !old(self).finished()
                && final(output).pos < final(output).buf@.len()) ==> !final(self).boundary_pending(),
            old(self).finished() ==> final(self).finished(),
    {
        let in_cap: usize = input.buf.len();
        let out_cap: usize = output.buf.len();
        let prior_in = engine_in_count(&self.compress);
        let prior_out = engine_out_count(&self.compress);
        let res = engine_compress(
            &mut self.compress,
            &input.buf,
            input.pos,
            &mut output.buf,
            output.pos,
            mode,
        );
        match res {
            Result::Ok(status) => {
                let now_in = engine_in_count(&self.compress);
                let now_out = engine_out_count(&self.compress);
                let din = now_in - prior_in;
                let dout = now_out - prior_out;
                assert(din <= in_cap - input.pos);
                assert(dout <= out_cap - output.pos);
                let ghost start = input.pos as int;
                input.advance(din as usize);
                output.advance(dout as usize);
                self.fed_log = Ghost(
                    self.fed_log@ + input.buf@.subrange(start, start + din as int),
                );
                Result::Ok(status)
            }
            Result::Err(_) => {
                proof {
                    assert(self.fed_log@ =~= self.fed_log@ + input.buf@.subrange(
                        input.pos as int,
                        input.pos as int,
                    ));
                }
                Result::Err(CodecError::Failed)
            }
        }
    }
}

impl Encode for FlateEncoder {
    // The flushed mark only ever stands when the boundary it reports is
    // fully drained from the engine — except once the session has ended,
    // after which nothing is pending anyway but the engine is opaque about
    // it.
    closed spec fn inv(&self) -> bool {
        self.flushed ==> (!engine_pending(self.compress) || engine_done(self.compress))
    }

    closed spec fn flushed(&self) -> bool {
        self.flushed
    }

    closed spec fn fed(&self) -> Seq<u8> {
        self.fed_log@
    }

    closed spec fn produced_total(&self) -> int {
        engine_total_out(self.compress) as int
    }

    closed spec fn finished(&self) -> bool {
        engine_done(self.compress)
    }

    closed spec fn live(&self) -> bool {
        engine_live(self.compress)
    }

    closed spec fn boundary_pending(&self) -> bool {
        engine_pending(self.compress)
    }

    fn encode(&mut self, input: &mut PartialBuffer, output: &mut PartialBuffer) -> (r: Result<
        (),
        CodecError,
    >) {
        self.flushed = false;
        let had_input = input.unwritten_len() > 0;
        let had_room = output.unwritten_len() > 0;
        match self.step(input, output, FlushMode::NoFlush) {
            Result::Ok(EngineStatus::Progress) => Result::Ok(()),
            Result::Ok(EngineStatus::StreamEnd) => Result::Err(CodecError::UnexpectedEnd),
            Result::Ok(EngineStatus::Starved) => {
                // Starvation is a fault only with capacity on both sides;
                // with an empty input or a full output there was nothing
                // the engine owed, so nothing happening is success.
                if had_input && had_room {
                    Result::Err(CodecError::Starved)
                } else {
                    Result::Ok(())
                }
            },
            Result::Err(e) => Result::Err(e),
        }
    }

    fn flush(&mut self, output: &mut PartialBuffer) -> (r: Result<bool, CodecError>) {
        if self.flushed {
            return Result::Ok(true);
        }
        let mut drain = PartialBuffer::new(Vec::new());
        match self.step(&mut drain, output, FlushMode::SyncFlush) {
            Result::Ok(_) => {}
            Result::Err(e) => {
                return Result::Err(e);
            }
        }
        let done = output.unwritten_len() > 0;
        if done {
            self.flushed = true;
        }
        Result::Ok(done)
    }

    fn finish(&mut self, output: &mut PartialBuffer) -> (r: Result<bool, CodecError>) {
        self.flushed = false;
        let mut drain = PartialBuffer::new(Vec::new());
        match self.step(&mut drain, output, FlushMode::Finish) {
            Result::Ok(EngineStatus::Progress) => Result::Ok(false),
            Result::Ok(EngineStatus::StreamEnd) => Result::Ok(true),
            Result::Ok(EngineStatus::Starved) => Result::Err(CodecError::Starved),
            Result::Err(e) => Result::Err(e),
        }
    }
}

} // verus!
