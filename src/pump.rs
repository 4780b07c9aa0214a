//! One direction of a relay: read a chunk from the source, write exactly that
//! chunk to the destination, count it, and on end of stream half-close the
//! destination.
use vstd::prelude::*;

use crate::transport::TransportError;

verus! {

/// The way a pump carries bytes.
#[derive(Clone, Copy, PartialEq, Eq, Debug, Structural)]
pub enum Direction {
    ClientToUpstream,
    UpstreamToClient,
}

/// Where a pump stands.
#[derive(Clone, Copy, PartialEq, Eq, Debug, Structural)]
pub enum PumpPhase {
    /// Waiting for a read from the source.
    Reading,
    /// Waiting for a chunk to be written to the destination.
    Writing,
    /// The source ended; waiting for the destination's write side to close.
    Closing,
    /// The source ended and everything read was delivered.
    Done,
    /// A read, write or shutdown failed.
    Failed,
}

impl PumpPhase {
    pub open spec fn spec_is_terminal(self) -> bool {
        self == PumpPhase::Done || self == PumpPhase::Failed
    }

    pub fn is_terminal(self) -> (r: bool)
        ensures
            r == self.spec_is_terminal(),
    {
        match self {
            PumpPhase::Done | PumpPhase::Failed => true,
            _ => false,
        }
    }
}

/// The outcome of the operation a pump last asked for.
pub enum PumpEvent {
    /// A read finished with these bytes; no bytes means the source ended.
    Received(Vec<u8>),
    /// The last chunk was written to the destination in full.
    Sent,
    /// The destination's write side was shut down.
    Closed,
    /// The read, write or shutdown failed.
    Failed(TransportError),
}

/// The operation a pump asks for next.
pub enum PumpAction {
    /// Read a chunk from the source.
    Read,
    /// Write all of these bytes to the destination.
    Write(Vec<u8>),
    /// Shut down the destination's write side.
    Shutdown,
    /// Nothing more: the pump has ended.
    Stop,
}

/// An event as the model sees it.
pub enum PumpInput {
    Received(Seq<u8>),
    Sent,
    Closed,
    Broke,
}

/// An action as the model sees it.
pub enum PumpOutput {
    Read,
    Write(Seq<u8>),
    Shutdown,
    Stop,
}

impl View for PumpEvent {
    type V = PumpInput;

    open spec fn view(&self) -> PumpInput {
        match self {
            PumpEvent::Received(b) => PumpInput::Received(b@),
            PumpEvent::Sent => PumpInput::Sent,
            PumpEvent::Closed => PumpInput::Closed,
            PumpEvent::Failed(_) => PumpInput::Broke,
        }
    }
}

impl View for PumpAction {
    type V = PumpOutput;

    open spec fn view(&self) -> PumpOutput {
        match self {
            PumpAction::Read => PumpOutput::Read,
            PumpAction::Write(b) => PumpOutput::Write(b@),
            PumpAction::Shutdown => PumpOutput::Shutdown,
            PumpAction::Stop => PumpOutput::Stop,
        }
    }
}

/// The model of a pump: its phase and the byte streams on both sides.
pub struct PumpView {
    pub direction: Direction,
    pub phase: PumpPhase,
    /// Every byte read from the source, in order.
    pub received: Seq<u8>,
    /// Every byte written to the destination, in order.
    pub delivered: Seq<u8>,
    /// The chunk handed out for writing and not yet confirmed.
    pub pending: Seq<u8>,
}

/// A pump that has not yet read anything.
pub open spec fn pump_fresh(direction: Direction) -> PumpView {
    PumpView {
        direction,
        phase: PumpPhase::Reading,
        received: Seq::empty(),
        delivered: Seq::empty(),
        pending: Seq::empty(),
    }
}

/// What holds of every reachable pump: the bytes read are the bytes delivered
/// followed by the chunk in flight, which is non-empty exactly while writing.
pub open spec fn pump_inv(v: PumpView) -> bool {
    &&& v.received == v.delivered + v.pending
    &&& v.phase == PumpPhase::Writing ==> v.pending.len() > 0
    &&& (v.phase == PumpPhase::Reading || v.phase == PumpPhase::Closing || v.phase
        == PumpPhase::Done) ==> v.pending.len() == 0
}

/// Whether the event answers what the pump is waiting for.  A read may only
/// be taken while the byte count stays within 64 bits.
pub open spec fn pump_accepts(v: PumpView, e: PumpInput) -> bool {
    match e {
        PumpInput::Received(b) => v.phase == PumpPhase::Reading && v.received.len() + b.len()
            <= u64::MAX,
        PumpInput::Sent => v.phase == PumpPhase::Writing,
        PumpInput::Closed => v.phase == PumpPhase::Closing,
        PumpInput::Broke => !v.phase.spec_is_terminal(),
    }
}

/// The pump after an accepted event.
pub open spec fn pump_next(v: PumpView, e: PumpInput) -> PumpView {
    match e {
        PumpInput::Received(b) => if b.len() == 0 {
            PumpView { phase: PumpPhase::Closing, ..v }
        } else {
            PumpView { phase: PumpPhase::Writing, received: v.received + b, pending: b, ..v }
        },
        PumpInput::Sent => PumpView {
            phase: PumpPhase::Reading,
            delivered: v.delivered + v.pending,
            pending: Seq::empty(),
            ..v
        },
        PumpInput::Closed => PumpView { phase: PumpPhase::Done, ..v },
        PumpInput::Broke => PumpView { phase: PumpPhase::Failed, ..v },
    }
}

/// What the pump asks for after an accepted event.
pub open spec fn pump_output(v: PumpView, e: PumpInput) -> PumpOutput {
    match e {
        PumpInput::Received(b) => if b.len() == 0 {
            PumpOutput::Shutdown
        } else {
            PumpOutput::Write(b)
        },
        PumpInput::Sent => PumpOutput::Read,
        PumpInput::Closed => PumpOutput::Stop,
        PumpInput::Broke => PumpOutput::Stop,
    }
}

/// Every accepted event keeps the pump's invariant.
pub proof fn lemma_pump_step_inv(v: PumpView, e: PumpInput)
    requires
        pump_inv(v),
        pump_accepts(v, e),
    ensures
        pump_inv(pump_next(v, e)),
        pump_next(v, e).direction == v.direction,
{
    match e {
        PumpInput::Received(b) => {
            if b.len() > 0 {
                assert(v.received + b =~= v.delivered + b);
            }
        },
        PumpInput::Sent => {
            assert(v.delivered + v.pending + Seq::empty() =~= v.delivered + v.pending);
        },
        _ => {},
    }
}

/// The pump after a sequence of events, taken in order.
pub open spec fn pump_run(v: PumpView, evs: Seq<PumpInput>) -> PumpView
    decreases evs.len(),
{
    if evs.len() == 0 {
        v
    } else {
        pump_run(pump_next(v, evs[0]), evs.drop_first())
    }
}

/// Whether the pump accepts each event of the sequence in its turn.
pub open spec fn pump_trace_ok(v: PumpView, evs: Seq<PumpInput>) -> bool
    decreases evs.len(),
{
    evs.len() == 0 || (pump_accepts(v, evs[0]) && pump_trace_ok(
        pump_next(v, evs[0]),
        evs.drop_first(),
    ))
}

/// The bytes of one action, if it is a write.
pub open spec fn written_by(out: PumpOutput) -> Seq<u8> {
    match out {
        PumpOutput::Write(b) => b,
        _ => Seq::empty(),
    }
}

/// All bytes the pump hands out for writing along a sequence of events.
pub open spec fn pump_writes(v: PumpView, evs: Seq<PumpInput>) -> Seq<u8>
    decreases evs.len(),
{
    if evs.len() == 0 {
        Seq::empty()
    } else {
        written_by(pump_output(v, evs[0])) + pump_writes(pump_next(v, evs[0]), evs.drop_first())
    }
}

/// The events of a clean run: each chunk is read and then written, then the
/// source ends and the destination is half-closed.
pub open spec fn pump_feed(chunks: Seq<Seq<u8>>) -> Seq<PumpInput>
    decreases chunks.len(),
{
    if chunks.len() == 0 {
        seq![PumpInput::Received(Seq::empty()), PumpInput::Closed]
    } else {
        seq![PumpInput::Received(chunks[0]), PumpInput::Sent] + pump_feed(chunks.drop_first())
    }
}

/// Byte fidelity of one direction: along any sequence of events the pump
/// accepts, the bytes it hands out for writing are exactly the bytes it read,
/// in the order read; what it has delivered is always a prefix of that, and
/// once it is done it has delivered all of it.
pub proof fn lemma_pump_fidelity(v: PumpView, evs: Seq<PumpInput>)
    requires
        pump_inv(v),
        pump_trace_ok(v, evs),
    ensures
        pump_inv(pump_run(v, evs)),
        pump_run(v, evs).direction == v.direction,
        pump_run(v, evs).received == v.received + pump_writes(v, evs),
        pump_run(v, evs).received == pump_run(v, evs).delivered + pump_run(v, evs).pending,
        pump_run(v, evs).phase == PumpPhase::Done ==> pump_run(v, evs).delivered == pump_run(
            v,
            evs,
        ).received,
    decreases evs.len(),
{
    if evs.len() > 0 {
        let n = pump_next(v, evs[0]);
        lemma_pump_fidelity(n, evs.drop_first());
        assert(n.received == v.received + written_by(pump_output(v, evs[0])));
        assert(pump_run(v, evs).received == v.received + pump_writes(v, evs)) by {
            assert(v.received + written_by(pump_output(v, evs[0])) + pump_writes(
                n,
                evs.drop_first(),
            ) =~= v.received + (written_by(pump_output(v, evs[0])) + pump_writes(
                n,
                evs.drop_first(),
            )));
        }
    } else {
        assert(v.received + pump_writes(v, evs) =~= v.received);
    }
}

/// Any payload, however the reads split it into chunks, goes through a
/// reading pump whole: the clean run is accepted, ends done, and the pump has
/// read, written out and delivered exactly that payload after what it had.
pub proof fn lemma_pump_delivers(v: PumpView, chunks: Seq<Seq<u8>>)
    requires
        pump_inv(v),
        v.phase == PumpPhase::Reading,
        forall|i: int| 0 <= i < chunks.len() ==> #[trigger] chunks[i].len() > 0,
        v.received.len() + chunks.flatten().len() <= u64::MAX,
    ensures
        pump_trace_ok(v, pump_feed(chunks)),
        pump_run(v, pump_feed(chunks)).phase == PumpPhase::Done,
        pump_run(v, pump_feed(chunks)).direction == v.direction,
        pump_run(v, pump_feed(chunks)).delivered == v.delivered + chunks.flatten(),
        pump_run(v, pump_feed(chunks)).received == v.received + chunks.flatten(),
        pump_writes(v, pump_feed(chunks)) == chunks.flatten(),
        forall|i: int|
            0 <= i < pump_feed(chunks).len() ==> #[trigger] pump_feed(chunks)[i] !is Broke,
    decreases chunks.len(),
{
    let evs = pump_feed(chunks);
    if chunks.len() == 0 {
        let v1 = pump_next(v, PumpInput::Received(Seq::empty()));
        let v2 = pump_next(v1, PumpInput::Closed);
        let e1 = evs.drop_first();
        let e2 = e1.drop_first();
        assert(evs[0] == PumpInput::Received(Seq::empty()));
        assert(e1 =~= seq![PumpInput::Closed]);
        assert(e1[0] == PumpInput::Closed);
        assert(e2 =~= Seq::<PumpInput>::empty());
        assert(pump_trace_ok(v2, e2));
        assert(pump_trace_ok(v1, e1));
        assert(pump_run(v2, e2) == v2);
        assert(pump_run(v1, e1) == v2);
        assert(pump_writes(v2, e2) =~= Seq::empty());
        assert(pump_writes(v1, e1) =~= Seq::empty());
        assert(pump_writes(v, evs) =~= Seq::empty());
        assert(v.delivered + chunks.flatten() =~= v.delivered);
        assert(v.received + chunks.flatten() =~= v.received);
    } else {
        let c = chunks[0];
        let rest = chunks.drop_first();
        let tail = pump_feed(rest);
        let v1 = pump_next(v, PumpInput::Received(c));
        let v2 = pump_next(v1, PumpInput::Sent);
        assert(evs[0] == PumpInput::Received(c));
        assert(evs.drop_first() =~= seq![PumpInput::Sent] + tail);
        assert(evs.drop_first().drop_first() =~= tail);
        assert(chunks.flatten() == c + rest.flatten());
        assert forall|i: int| 0 <= i < rest.len() implies #[trigger] rest[i].len() > 0 by {
            assert(rest[i] == chunks[i + 1]);
        }
        assert(v2.delivered == v.delivered + c);
        lemma_pump_delivers(v2, rest);
        assert(pump_trace_ok(v1, evs.drop_first()));
        assert(pump_run(v1, evs.drop_first()) == pump_run(v2, tail));
        assert forall|i: int| 0 <= i < evs.len() implies #[trigger] evs[i] !is Broke by {
            if i >= 2 {
                assert(evs[i] == tail[i - 2]);
            }
        }
        assert(pump_writes(v1, evs.drop_first()) =~= pump_writes(v2, tail));
        assert(v.delivered + c + rest.flatten() =~= v.delivered + chunks.flatten());
        assert(v.received + c + rest.flatten() =~= v.received + chunks.flatten());
    }
}

/// One direction of a relay.
pub struct Pump {
    direction: Direction,
    phase: PumpPhase,
    transferred: u64,
    pending_len: u64,
    received: Ghost<Seq<u8>>,
    delivered: Ghost<Seq<u8>>,
    pending: Ghost<Seq<u8>>,
}

impl View for Pump {
    type V = PumpView;

    closed spec fn view(&self) -> PumpView {
        PumpView {
            direction: self.direction,
            phase: self.phase,
            received: self.received@,
            delivered: self.delivered@,
            pending: self.pending@,
        }
    }
}

impl Pump {
    /// The counters agree with the byte streams of the model.
    pub closed spec fn counters_agree(&self) -> bool {
        &&& self.transferred == self.delivered@.len()
        &&& self.pending_len == self.pending@.len()
        &&& self.received@.len() <= u64::MAX
    }

    pub open spec fn wf(&self) -> bool {
        pump_inv(self@) && self.counters_agree()
    }

    /// A pump that will first read from its source.
    pub fn new(direction: Direction) -> (r: Pump)
        ensures
            r.wf(),
            r@ == pump_fresh(direction),
    {
        Pump {
            direction,
            phase: PumpPhase::Reading,
            transferred: 0,
            pending_len: 0,
            received: Ghost(Seq::empty()),
            delivered: Ghost(Seq::empty()),
            pending: Ghost(Seq::empty()),
        }
    }

    pub fn direction(&self) -> (r: Direction)
        ensures
            r == self@.direction,
    {
        self.direction
    }

    pub fn phase(&self) -> (r: PumpPhase)
        ensures
            r == self@.phase,
    {
        self.phase
    }

    /// The number of bytes written to the destination so far.
    pub fn transferred(&self) -> (r: u64)
        requires
            self.wf(),
        ensures
            r == self@.delivered.len(),
    {
        self.transferred
    }

    /// Whether `step` may be called with this event now.
    pub fn accepts(&self, event: &PumpEvent) -> (r: bool)
        requires
            self.wf(),
        ensures
            r == pump_accepts(self@, event@),
    {
        match event {
            PumpEvent::Received(b) => {
                match self.phase {
                    PumpPhase::Reading => b.len() as u64 <= u64::MAX - self.transferred,
                    _ => false,
                }
            },
            PumpEvent::Sent => match self.phase {
                PumpPhase::Writing => true,
                _ => false,
            },
            PumpEvent::Closed => match self.phase {
                PumpPhase::Closing => true,
                _ => false,
            },
            PumpEvent::Failed(_) => !self.phase.is_terminal(),
        }
    }

    /// Gives up on this direction after a failed operation.
    pub fn halt(&mut self)
        requires
            old(self).wf(),
            !old(self)@.phase.spec_is_terminal(),
        ensures
            final(self).wf(),
            final(self)@ == pump_next(old(self)@, PumpInput::Broke),
    {
        self.phase = PumpPhase::Failed;
    }

    /// Takes the outcome of the last operation and says what to do next.
    pub fn step(&mut self, event: PumpEvent) -> (action: PumpAction)
        requires
            old(self).wf(),
            pump_accepts(old(self)@, event@),
        ensures
            final(self).wf(),
            final(self)@ == pump_next(old(self)@, event@),
            action@ == pump_output(old(self)@, event@),
    {
        match event {
            PumpEvent::Received(bytes) => {
                if bytes.len() == 0 {
                    self.phase = PumpPhase::Closing;
                    PumpAction::Shutdown
                } else {
                    self.received = Ghost(self.received@ + bytes@);
                    self.pending = Ghost(bytes@);
                    self.pending_len = bytes.len() as u64;
                    self.phase = PumpPhase::Writing;
                    PumpAction::Write(bytes)
                }
            },
            PumpEvent::Sent => {
                self.delivered = Ghost(self.delivered@ + self.pending@);
                self.transferred = self.transferred + self.pending_len;
                self.pending = Ghost(Seq::empty());
                self.pending_len = 0;
                self.phase = PumpPhase::Reading;
                PumpAction::Read
            },
            PumpEvent::Closed => {
                self.phase = PumpPhase::Done;
                PumpAction::Stop
            },
            PumpEvent::Failed(_) => {
                self.halt();
                PumpAction::Stop
            },
        }
    }
}

} // verus!
