//! The three-operation contract every codec step must satisfy.
//!
//! A codec step is a synchronous, buffer-bounded transform driven through
//! repeated calls: `encode` moves bytes from an input cursor to an output
//! cursor, `flush` forces internally buffered data out to a stream-boundary
//! marker, and `finish` emits the session's final framing. All three are
//! bounded by whatever capacity the caller currently has available.

use vstd::prelude::*;

use crate::buffer::PartialBuffer;

verus! {

/// A fatal failure of the codec step. Every variant ends the stream; none is
/// retried.
#[derive(Clone, Copy, Debug, PartialEq, Eq, Structural)]
pub enum CodecError {
    /// The engine made no progress despite having capacity on both sides: a
    /// contract violation by the codec implementation.
    Starved,
    /// The underlying engine reported a corrupt or invalid internal state.
    Failed,
    /// The engine claimed the session ended outside of finalization: a
    /// contract violation by the codec implementation.
    UnexpectedEnd,
}

/// The codec step contract.
///
/// Every operation accounts for its work through the cursors it is handed:
/// it consumes only from the input's remaining bytes, writes only into the
/// output's remaining capacity, and never disturbs what an earlier call
/// already produced. The session is tracked by three pieces of abstract
/// state: `fed`, the exact byte sequence the codec has consumed so far;
/// `produced_total`, its session count of bytes written out; and `finished`,
/// whether the final framing is fully emitted.
pub trait Encode: Sized {
    /// Well-formedness of the codec's own state.
    spec fn inv(&self) -> bool;

    /// Whether a flush has run since the last transform: when this holds,
    /// a flush has nothing to do, short-circuits, and must not emit another
    /// boundary marker.
    spec fn flushed(&self) -> bool;

    /// The byte sequence this codec has consumed over the session, in
    /// order. Every operation extends it by exactly the input bytes it
    /// consumed, so no byte is ever skipped, duplicated or reordered on the
    /// way into the codec.
    spec fn fed(&self) -> Seq<u8>;

    /// The codec's session count of output bytes produced so far. Every
    /// operation advances the output cursor by exactly the amount this
    /// count grows, so the cursor and the codec's own accounting agree.
    spec fn produced_total(&self) -> int;

    /// Whether the session's final framing is fully emitted; set once
    /// `finish` completes, after which the codec must not be used again.
    spec fn finished(&self) -> bool;

    /// Whether the codec is live for streaming work: no failure recorded
    /// and finalization not begun, so transforms and flushes succeed.
    spec fn live(&self) -> bool;

    /// Whether the codec holds boundary or framing bytes it has already
    /// formed but could not yet write out for want of output capacity.
    spec fn boundary_pending(&self) -> bool;

    /// Consumes a prefix of the input's remaining bytes and produces a
    /// prefix of the output's remaining capacity. On a live codec it
    /// always succeeds and stays live: an empty input or a full output is
    /// not a fault, and when both sides have room a successful call makes
    /// forward progress on at least one side. A transform clears the
    /// flushed mark, so the next flush emits a fresh boundary.
    fn encode(&mut self, input: &mut PartialBuffer, output: &mut PartialBuffer) -> (r: Result<
        (),
        CodecError,
    >)
        requires
            old(self).inv(),
            old(input).inv(),
            old(output).inv(),
        ensures
            final(self).inv(),
            final(input).inv(),
            final(output).inv(),
            final(input).buf == old(input).buf,
            old(input).pos <= final(input).pos,
            final(output).buf@.len() == old(output).buf@.len(),
            old(output).pos <= final(output).pos,
            forall|i: int|
                0 <= i < old(output).pos ==> final(output).buf@[i] == old(output).buf@[i],
            final(self).fed() == old(self).fed() + old(input).buf@.subrange(
                old(input).pos as int,
                final(input).pos as int,
            ),
            r is Ok ==> final(self).produced_total() - old(self).produced_total() == final(output).pos - old(output).pos,
            !final(self).flushed(),
            (r is Ok && old(input).pos < old(input).buf@.len() && old(output).pos < old(output).buf@.len())
                ==> (final(input).pos > old(input).pos || final(output).pos > old(output).pos),
            old(self).live() ==> (r is Ok && final(self).live()),
    ;

    /// Forces internally buffered, not-yet-emitted data out to a stream
    /// boundary. Returns `Ok(true)` once the boundary is fully emitted —
    /// nothing stays pending inside the codec — and `Ok(false)` when the
    /// output capacity ran out first. On a live codec it always succeeds
    /// and stays live. Flushing is idempotent: once the flushed mark is
    /// set, calling flush again without an intervening `encode` emits
    /// nothing and changes nothing. A flush never feeds the codec, and on
    /// a live, unflushed session it either emits boundary bytes or had no
    /// capacity left to emit into.
    fn flush(&mut self, output: &mut PartialBuffer) -> (r: Result<bool, CodecError>)
        requires
            old(self).inv(),
            old(output).inv(),
        ensures
            final(self).inv(),
            final(output).inv(),
            final(output).buf@.len() == old(output).buf@.len(),
            old(output).pos <= final(output).pos,
            forall|i: int|
                0 <= i < old(output).pos ==> final(output).buf@[i] == old(output).buf@[i],
            final(self).fed() == old(self).fed(),
            r is Ok ==> final(self).produced_total() - old(self).produced_total() == final(output).pos - old(output).pos,
            old(self).flushed() ==> (r == Result::<bool, CodecError>::Ok(true) && *final(self)
                == *old(self) && *final(output) == *old(output)),
            r == Result::<bool, CodecError>::Ok(true) ==> final(self).flushed(),
            r == Result::<bool, CodecError>::Ok(false) ==> final(output).pos == final(output).buf@.len(),
            (!old(self).flushed() && !old(self).finished() && r is Ok) ==> (final(output).pos > old(output).pos || final(output).pos == final(output).buf@.len()),
            old(self).live() ==> (r is Ok && final(self).live()),
            (r == Result::<bool, CodecError>::Ok(true) && !old(self).finished()) ==> !final(self).boundary_pending(),
    ;

    /// Emits the session's final framing. Returns `Ok(true)` once it is
    /// fully out — the codec is then finished and must not be used again —
    /// and `Ok(false)` when the output capacity ran out first, asking to be
    /// called again with fresh capacity. On a live codec with spare output
    /// capacity it succeeds. Finalizing never feeds the codec.
    fn finish(&mut self, output: &mut PartialBuffer) -> (r: Result<bool, CodecError>)
        requires
            old(self).inv(),
            old(output).inv(),
        ensures
            final(self).inv(),
            final(output).inv(),
            final(output).buf@.len() == old(output).buf@.len(),
            old(output).pos <= final(output).pos,
            forall|i: int|
                0 <= i < old(output).pos ==> final(output).buf@[i] == old(output).buf@[i],
            final(self).fed() == old(self).fed(),
            r is Ok ==> final(self).produced_total() - old(self).produced_total() == final(output).pos - old(output).pos,
            !final(self).flushed(),
            r == Result::<bool, CodecError>::Ok(true) ==> final(self).finished(),
            r == Result::<bool, CodecError>::Ok(false) ==> final(output).pos == final(output).buf@.len(),
            (old(self).live() && old(output).pos < old(output).buf@.len()) ==> r is Ok,
    ;
}

} // verus!
