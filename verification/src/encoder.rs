//! The streaming scheduler: a four-phase state machine that drives a codec
//! step against a non-blocking, possibly-partial upstream source.
//!
//! The scheduler itself never touches the upstream handle it owns; the
//! caller polls the source and hands the outcome in as a [`PollEvent`],
//! then obeys the returned [`Step`]: consume the reported number of bytes
//! from the source, fetch a fresh event and call again, suspend, or stop.
//! This keeps every decision of the loop inside verified code while the
//! blocking work stays with the embedding.

use vstd::prelude::*;

use crate::buffer::PartialBuffer;
use crate::codec::{CodecError, Encode};

verus! {

/// The scheduler's phase.
#[derive(Clone, Copy, Debug, PartialEq, Eq, Structural)]
pub enum State {
    /// Pulling upstream bytes through the codec.
    Encoding,
    /// Pushing buffered bytes out to a sync boundary.
    Flushing,
    /// Emitting the session's final framing.
    Finishing,
    /// Terminal: every further poll reports completion at once.
    Done,
}

/// What one non-blocking look at the upstream source yielded: nothing yet,
/// or a view of the currently buffered bytes. An empty chunk signals
/// end-of-data.
pub enum PollEvent {
    Pending,
    Chunk(Vec<u8>),
}

/// What the caller must do after one scheduling step.
#[derive(Clone, Copy, Debug, PartialEq, Eq, Structural)]
pub enum Step {
    /// Suspend: nothing was ready and nothing has been produced.
    Pending,
    /// Fetch a fresh upstream event and call again.
    Again,
    /// This poll is finished: the stream is done or the output is full.
    Ready,
}

/// How many loop entries one scheduling step can still make from a phase:
/// only a completed flush hands the loop on (to the encoding phase, which
/// returns at once); every other phase either returns or fills the output.
pub open spec fn phase_rank(s: State) -> int {
    match s {
        State::Flushing => 1,
        _ => 0,
    }
}

/// How many upstream bytes an event holds.
pub open spec fn event_len(e: PollEvent) -> int {
    match e {
        PollEvent::Pending => 0,
        PollEvent::Chunk(d) => d@.len() as int,
    }
}

/// The upstream bytes an event holds.
pub open spec fn event_bytes(e: PollEvent) -> Seq<u8> {
    match e {
        PollEvent::Pending => Seq::empty(),
        PollEvent::Chunk(d) => d@,
    }
}

/// Whether a poll call that has stopped stepping suspends or delivers:
/// control returns to the caller empty-handed only when the scheduler
/// suspended and the whole poll call produced nothing; any bytes already
/// produced are delivered instead, never withheld.
pub fn should_suspend(step: Step, produced: usize) -> (r: bool)
    ensures
        r == (step is Pending && produced == 0),
{
    matches!(step, Step::Pending) && produced == 0
}

/// The streaming scheduler. It owns the upstream source handle and the
/// codec step for the lifetime of one logical stream.
pub struct Encoder<R, E: Encode> {
    /// The upstream source. The scheduler only stores it; polling it is the
    /// embedding's job, which is what keeps this state machine free of
    /// blocking calls.
    pub reader: R,
    /// The codec step, owned exclusively for one session.
    pub encoder: E,
    /// The current phase.
    pub state: State,
}

impl<R, E: Encode> Encoder<R, E> {
    /// Well-formedness: the owned codec step is well-formed, and the
    /// terminal phase is reached only with the codec's final framing fully
    /// emitted.
    pub open spec fn inv(&self) -> bool {
        self.encoder.inv() && (self.state is Done ==> self.encoder.finished())
    }

    /// A new stream over `reader`, transformed by `encoder`, starting in
    /// the encoding phase.
    pub fn new(reader: R, encoder: E) -> (r: Self)
        ensures
            r.reader == reader,
            r.encoder == encoder,
            r.state is Encoding,
    {
        Encoder { reader, encoder, state: State::Encoding }
    }

    /// Acquires a reference to the underlying reader.
    pub fn get_ref(&self) -> (r: &R)
        ensures
            r == &self.reader,
    {
        &self.reader
    }

    /// Acquires a mutable reference to the underlying reader.
    pub fn get_mut(&mut self) -> (r: &mut R)
        ensures
            *r == old(self).reader,
            final(self).reader == *final(r),
            final(self).encoder == old(self).encoder,
            final(self).state == old(self).state,
    {
        &mut self.reader
    }

    /// Consumes this encoder, returning the underlying reader.
    pub fn into_inner(self) -> (r: R)
        ensures
            r == self.reader,
    {
        self.reader
    }

    /// Whether the next call to [`Self::do_poll_read`] will look at the
    /// upstream event. Only the encoding phase reads from upstream, so a
    /// caller may hand in [`PollEvent::Pending`] without polling the source
    /// when this is false.
    pub fn needs_event(&self) -> (r: bool)
        ensures
            r == (self.state is Encoding),
    {
        matches!(self.state, State::Encoding)
    }

    /// One scheduling step of a poll call.
    ///
    /// `event` is what the caller's non-blocking look at the upstream
    /// source yielded; it is examined only in the encoding phase.
    /// `consumed_input` is the caller-held record of whether this poll call
    /// has consumed upstream bytes since its last completed flush boundary:
    /// the caller starts it at `false` at the beginning of each poll call
    /// and hands the same flag back on every step of that call.
    ///
    /// On `Ok((n, step))` the caller must mark `n` bytes of the event's
    /// chunk as consumed from the source, then act on `step`. The contract
    /// pins the scheduling decisions down:
    /// - output already handed out is never revoked, and the output cursor
    ///   only moves forward within its capacity;
    /// - the codec is fed exactly the first `n` bytes of the event's chunk,
    ///   in order, and nothing else;
    /// - phase transitions are confined: a quiet look keeps encoding or
    ///   turns to flushing, a non-empty chunk stays encoding, only an empty
    ///   chunk (upstream end-of-data) leads to finalizing and from there to
    ///   the terminal phase, an incomplete flush persists only because the
    ///   capacity ran out, and a completed flush resets the consumed mark;
    /// - `Pending` suspends only from a quiet encoding phase with nothing
    ///   consumed, and changes nothing;
    /// - `Ready` means the stream is done or the output capacity is full;
    /// - `Again` always leaves the machine in the encoding phase with
    ///   output capacity still available, and every step that reports it
    ///   without consuming has produced output or changed the phase or the
    ///   consumed mark — so no two consecutive steps can both do nothing,
    ///   which rules out busy re-entry;
    /// - once the terminal phase is reached — which happens only with the
    ///   codec's final framing fully emitted — every further step reports
    ///   `Ready` at once, produces nothing and changes nothing.
    pub fn do_poll_read(
        &mut self,
        event: PollEvent,
        output: &mut PartialBuffer,
        consumed_input: &mut bool,
    ) -> (r: Result<(usize, Step), CodecError>)
        requires
            old(self).inv(),
            old(output).inv(),
            old(output).pos < old(output).buf@.len(),
        ensures
            final(self).inv(),
            final(self).reader == old(self).reader,
            final(output).inv(),
            final(output).buf@.len() == old(output).buf@.len(),
            old(output).pos <= final(output).pos,
            forall|i: int|
                0 <= i < old(output).pos ==> final(output).buf@[i] == old(output).buf@[i],
            old(self).state is Done ==> r is Ok,
            (old(self).state is Encoding && event is Pending && !*old(consumed_input)) ==> (r
                matches Result::Ok(p) && p.1 is Pending),
            (old(self).state is Encoding && event is Pending) ==> (final(self).state is Encoding
                || final(self).state is Flushing),
            (old(self).state is Encoding && event is Chunk && event_len(event) > 0) ==> final(self).state is Encoding,
            (old(self).state is Encoding && event is Chunk && event_len(event) == 0) ==> (final(self).state is Finishing || final(self).state is Done),
            old(self).state is Flushing ==> (final(self).state is Flushing || final(self).state
                is Encoding),
            old(self).state is Finishing ==> (final(self).state is Finishing || final(self).state
                is Done),
            ((old(self).state is Flushing || (old(self).state is Encoding && event is Pending))
                && final(self).state is Encoding && r is Ok) ==> !*final(consumed_input),
            (old(self).state is Flushing && final(self).state is Flushing && r is Ok) ==> final(output).pos == final(output).buf@.len(),
            match r {
                Result::Ok(p) => {
                    &&& p.0 <= event_len(event)
                    &&& (p.1 is Pending ==> old(self).state is Encoding && event is Pending
                        && !*old(consumed_input) && !*final(consumed_input) && p.0 == 0
                        && *final(self) == *old(self) && *final(output) == *old(output))
                    &&& (p.1 is Ready ==> (final(self).state is Done || final(output).pos
                        == final(output).buf@.len()))
                    &&& (p.1 is Again ==> final(self).state is Encoding && final(output).pos
                        < final(output).buf@.len())
                    &&& ((p.1 is Again && p.0 == 0 && old(self).state is Encoding
                        && !*old(consumed_input)) ==> final(output).pos > old(output).pos)
                    &&& ((p.1 is Again && p.0 == 0) ==> (final(output).pos > old(output).pos
                        || final(self).state != old(self).state || *final(consumed_input) != *old(consumed_input)))
                    &&& ((old(self).state is Encoding && event is Chunk && event_len(event) > 0)
                        ==> (p.0 > 0 || final(output).pos > old(output).pos))
                    &&& final(self).encoder.fed() == old(self).encoder.fed() + event_bytes(
                        event,
                    ).subrange(0, p.0 as int)
                    &&& (old(self).state is Done ==> p.1 is Ready && p.0 == 0 && final(self).state
                        is Done && final(self).encoder == old(self).encoder && final(output).pos
                        == old(output).pos && final(output).buf@ == old(output).buf@ && *final(consumed_input) == *old(consumed_input))
                },
                Result::Err(_) => true,
            },
    {
        if matches!(self.state, State::Encoding) {
            match event {
                PollEvent::Pending => {
                    if !*consumed_input {
                        return Result::Ok((0, Step::Pending));
                    }
                    self.state = State::Flushing;
                },
                PollEvent::Chunk(data) => {
                    if data.len() == 0 {
                        self.state = State::Finishing;
                    } else {
                        let mut input = PartialBuffer::new(data);
                        match self.encoder.encode(&mut input, output) {
                            Result::Ok(()) => {},
                            Result::Err(e) => {
                                return Result::Err(e);
                            },
                        }
                        let n = input.written_len();
                        if n > 0 {
                            *consumed_input = true;
                        }
                        if output.unwritten_len() == 0 {
                            return Result::Ok((n, Step::Ready));
                        }
                        return Result::Ok((n, Step::Again));
                    }
                },
            }
        }
        loop
            invariant
                self.inv(),
                output.inv(),
                self.reader == old(self).reader,
                output.buf@.len() == old(output).buf@.len(),
                old(output).pos <= output.pos,
                forall|i: int|
                    0 <= i < old(output).pos ==> output.buf@[i] == old(output).buf@[i],
                self.state is Encoding ==> output.pos < output.buf@.len(),
                (old(self).state is Encoding && !*old(consumed_input)) ==> (self.state is Finishing
                    || self.state is Done),
                !(old(self).state is Encoding && event is Pending && !*old(consumed_input)),
                !(old(self).state is Encoding && event is Chunk && event_len(event) > 0),
                self.encoder.fed() == old(self).encoder.fed(),
                (old(self).state is Encoding && event is Pending) ==> (self.state is Encoding
                    || self.state is Flushing),
                (old(self).state is Encoding && event is Chunk && event_len(event) == 0) ==> (
                self.state is Finishing || self.state is Done),
                old(self).state is Flushing ==> (self.state is Flushing || self.state
                    is Encoding),
                old(self).state is Finishing ==> (self.state is Finishing || self.state is Done),
                ((old(self).state is Flushing || (old(self).state is Encoding && event
                    is Pending)) && self.state is Encoding) ==> !*consumed_input,
                old(self).state is Done ==> (self.state is Done && self.encoder == old(self).encoder && output.pos == old(output).pos && output.buf@ == old(output).buf@
                    && *consumed_input == *old(consumed_input)),
            decreases phase_rank(self.state),
        {
            match self.state {
                State::Encoding => {
                    return Result::Ok((0, Step::Again));
                },
                State::Flushing => {
                    if !*consumed_input {
                        let mut drain = PartialBuffer::new(Vec::new());
                        match self.encoder.encode(&mut drain, output) {
                            Result::Ok(()) => {},
                            Result::Err(e) => {
                                return Result::Err(e);
                            },
                        }
                    }
                    match self.encoder.flush(output) {
                        Result::Ok(done) => {
                            if done {
                                *consumed_input = false;
                                self.state = State::Encoding;
                            }
                        },
                        Result::Err(e) => {
                            return Result::Err(e);
                        },
                    }
                },
                State::Finishing => {
                    match self.encoder.finish(output) {
                        Result::Ok(done) => {
                            if done {
                                self.state = State::Done;
                            }
                        },
                        Result::Err(e) => {
                            return Result::Err(e);
                        },
                    }
                },
                State::Done => {
                    return Result::Ok((0, Step::Ready));
                },
            }
            if matches!(self.state, State::Done) {
                return Result::Ok((0, Step::Ready));
            }
            if output.unwritten_len() == 0 {
                return Result::Ok((0, Step::Ready));
            }
        }
    }
}

} // verus!
