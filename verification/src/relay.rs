//! The terminal relay: what to do with each read from the shell channel.
//!
//! One relay runs per session. The program around this crate holds the channel
//! lock, reads into a buffer, and reports the outcome; `relay_step` answers
//! with what to do before the next read.

use vstd::prelude::*;
use vstd::slice::slice_subrange;

verus! {

/// Name of the event that carries terminal output.
pub const TERMINAL_OUTPUT_EVENT: &'static str = "terminal-output";

/// Size of the buffer that the relay reads into.
pub const RELAY_BUFFER_SIZE: usize = 4096;

/// Milliseconds that the relay sleeps, with the channel lock released, when
/// a read would block. This bounds how long a writer waits for the lock.
pub const POLL_INTERVAL_MS: u64 = 10;

/// How a read from the channel ended.
#[derive(Debug, Clone, PartialEq, Eq)]
pub enum ReadOutcome {
    /// This many bytes now stand at the start of the buffer.
    Bytes(usize),
    /// Nothing is there to read yet.
    WouldBlock,
    /// The read failed otherwise; holds the message of the failure.
    Failed(String),
}

/// Why a relay ended.
#[derive(Debug, Clone, PartialEq, Eq)]
pub enum RelayEnd {
    /// The remote side closed the stream.
    StreamClosed,
    /// A read failed; holds the message of the failure.
    ReadFailed(String),
}

/// What the relay does after a read.
#[derive(Debug, PartialEq, Eq)]
pub enum RelayStep<'a> {
    /// Emit these bytes as terminal output, release the lock and read again.
    Emit(&'a [u8]),
    /// Release the lock, sleep for this many milliseconds and read again.
    Pause(u64),
    /// Log the reason and end the relay. The session stays registered.
    Stop(RelayEnd),
}

/// The step that follows a read, with the bytes to emit given as a sequence.
pub enum StepView {
    Emit(Seq<u8>),
    Pause(u64),
    Stop(RelayEnd),
}

impl<'a> View for RelayStep<'a> {
    type V = StepView;

    open spec fn view(&self) -> StepView {
        match *self {
            RelayStep::Emit(data) => StepView::Emit(data@),
            RelayStep::Pause(ms) => StepView::Pause(ms),
            RelayStep::Stop(end) => StepView::Stop(end),
        }
    }
}

/// The step that follows a read: a read of zero bytes means the stream is
/// closed, any other read is emitted as it is, a read that would block is
/// tried again after a pause, and any other failure ends the relay.
pub open spec fn step_after(buffer: Seq<u8>, outcome: ReadOutcome) -> StepView {
    match outcome {
        ReadOutcome::Bytes(n) => if n == 0 {
            StepView::Stop(RelayEnd::StreamClosed)
        } else {
            StepView::Emit(buffer.take(n as int))
        },
        ReadOutcome::WouldBlock => StepView::Pause(POLL_INTERVAL_MS),
        ReadOutcome::Failed(message) => StepView::Stop(RelayEnd::ReadFailed(message)),
    }
}

/// Decides what the relay does after a read into `buffer`.
pub fn relay_step<'a>(buffer: &'a [u8], outcome: ReadOutcome) -> (step: RelayStep<'a>)
    requires
        outcome matches ReadOutcome::Bytes(n) ==> n <= buffer@.len(),
    ensures
        step@ == step_after(buffer@, outcome),
{
    match outcome {
        ReadOutcome::Bytes(n) => {
            if n == 0 {
                RelayStep::Stop(RelayEnd::StreamClosed)
            } else {
                RelayStep::Emit(slice_subrange(buffer, 0, n))
            }
        },
        ReadOutcome::WouldBlock => RelayStep::Pause(POLL_INTERVAL_MS),
        ReadOutcome::Failed(message) => RelayStep::Stop(RelayEnd::ReadFailed(message)),
    }
}

/// One read of a relay's run: what the buffer held and how the read ended.
pub struct ReadEvent {
    pub buffer: Seq<u8>,
    pub outcome: ReadOutcome,
}

/// The terminal output that a relay emits over a run of reads: the bytes of
/// each read in the order of the reads, up to the read that ends the relay.
pub open spec fn emitted(reads: Seq<ReadEvent>) -> Seq<u8>
    decreases reads.len(),
{
    if reads.len() == 0 {
        Seq::empty()
    } else {
        match step_after(reads[0].buffer, reads[0].outcome) {
            StepView::Emit(data) => data + emitted(reads.drop_first()),
            StepView::Pause(_) => emitted(reads.drop_first()),
            StepView::Stop(_) => Seq::empty(),
        }
    }
}

/// Whether a run of reads holds one that ends the relay.
pub open spec fn ends(reads: Seq<ReadEvent>) -> bool {
    exists|i: int| 0 <= i < reads.len() && #[trigger] step_after(
        reads[i].buffer,
        reads[i].outcome,
    ) is Stop
}

/// Output is emitted in the order it was read: while the relay has not
/// ended, what a longer run emits starts with what the shorter run emitted.
pub proof fn law_output_keeps_order(earlier: Seq<ReadEvent>, later: Seq<ReadEvent>)
    requires
        !ends(earlier),
    ensures
        emitted(earlier + later) == emitted(earlier) + emitted(later),
    decreases earlier.len(),
{
    if earlier.len() == 0 {
        assert(earlier + later =~= later);
    } else {
        let rest = earlier.drop_first();
        assert((earlier + later).drop_first() =~= rest + later);
        assert((earlier + later)[0] == earlier[0]);
        assert(!(step_after(earlier[0].buffer, earlier[0].outcome) is Stop));
        assert forall|i: int| 0 <= i < rest.len() implies !(#[trigger] step_after(
            rest[i].buffer,
            rest[i].outcome,
        ) is Stop) by {
            assert(rest[i] == earlier[i + 1]);
        }
        law_output_keeps_order(rest, later);
        assert(emitted(earlier + later) =~= emitted(earlier) + emitted(later));
    }
}

/// Nothing is emitted after the read that ends the relay.
pub proof fn law_nothing_after_end(earlier: Seq<ReadEvent>, last: ReadEvent, later: Seq<ReadEvent>)
    requires
        !ends(earlier),
        step_after(last.buffer, last.outcome) is Stop,
    ensures
        emitted(earlier.push(last) + later) == emitted(earlier),
{
    let tail = seq![last] + later;
    assert(earlier.push(last) + later =~= earlier + tail);
    law_output_keeps_order(earlier, tail);
    assert(tail[0] == last);
    assert(emitted(tail) =~= Seq::<u8>::empty());
    assert(emitted(earlier) + emitted(tail) =~= emitted(earlier));
}

} // verus!
