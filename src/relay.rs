//! One relayed connection: connect upstream, then run both pumps until both
//! have ended, then report the byte counts or the first failure.
use vstd::prelude::*;

use crate::pump::{
    lemma_pump_delivers, lemma_pump_step_inv, pump_accepts, pump_feed, pump_fresh, pump_inv,
    pump_next, pump_output, pump_run, pump_trace_ok, Direction, Pump, PumpAction, PumpEvent,
    PumpInput, PumpOutput, PumpPhase, PumpView,
};
use crate::transport::TransportError;

verus! {

/// Where a connection stands.
#[derive(Clone, Copy, PartialEq, Eq, Debug, Structural)]
pub enum ConnPhase {
    /// The client connection was accepted; nothing else happened yet.
    Accepted,
    /// Waiting for the upstream connection to open.
    Connecting,
    /// Both pumps are set up and at least one has not ended.
    Relaying,
    /// Both pumps ended cleanly.
    Completed,
    /// Upstream could not be reached, or a pump failed.
    Failed,
}

/// Why a relayed connection failed.
pub enum RelayError {
    /// The upstream connection could not be opened.
    UpstreamUnreachable(TransportError),
    /// A read, write or shutdown failed in one direction.
    PumpError { direction: Direction, cause: TransportError },
    /// A peer reset or aborted the connection while bytes were being copied.
    ConnectionAborted { direction: Direction, cause: TransportError },
}

/// The bytes carried each way by a connection that completed.
#[derive(Clone, Copy, PartialEq, Eq, Debug, Structural)]
pub struct RelayResult {
    pub client_to_upstream_bytes: u64,
    pub upstream_to_client_bytes: u64,
}

/// What the program should do after a connection-level step.
#[derive(Clone, Copy, PartialEq, Eq, Debug, Structural)]
pub enum ConnAction {
    /// Open a connection to the upstream address.
    ConnectUpstream,
    /// Start both pumps with a read from their source.
    StartRelaying,
    /// Close the client connection; the connection has failed.
    CloseClient,
}

/// The failure recorded when a pump of the given direction breaks.
pub open spec fn failure_of(direction: Direction, cause: TransportError) -> RelayError {
    if cause.spec_is_abort() {
        RelayError::ConnectionAborted { direction, cause }
    } else {
        RelayError::PumpError { direction, cause }
    }
}

/// Tells a peer's abort apart from other pump failures.
pub fn classify(direction: Direction, cause: TransportError) -> (r: RelayError)
    ensures
        r == failure_of(direction, cause),
{
    if cause.is_abort() {
        RelayError::ConnectionAborted { direction, cause }
    } else {
        RelayError::PumpError { direction, cause }
    }
}

/// The model of a connection.
pub struct ConnView {
    pub phase: ConnPhase,
    pub client_to_upstream: PumpView,
    pub upstream_to_client: PumpView,
    pub error: Option<RelayError>,
}

/// An event for a connection that is relaying.
pub enum ConnInput {
    /// A pump's operation finished (never `Broke`: failures carry a cause).
    Pump(Direction, PumpInput),
    /// A pump's operation failed.
    Fail(Direction, TransportError),
}

pub open spec fn pump_of(c: ConnView, d: Direction) -> PumpView {
    match d {
        Direction::ClientToUpstream => c.client_to_upstream,
        Direction::UpstreamToClient => c.upstream_to_client,
    }
}

pub open spec fn with_pump(c: ConnView, d: Direction, p: PumpView) -> ConnView {
    match d {
        Direction::ClientToUpstream => ConnView { client_to_upstream: p, ..c },
        Direction::UpstreamToClient => ConnView { upstream_to_client: p, ..c },
    }
}

pub open spec fn both_ended(c: ConnView) -> bool {
    c.client_to_upstream.phase.spec_is_terminal() && c.upstream_to_client.phase.spec_is_terminal()
}

pub open spec fn some_failed(c: ConnView) -> bool {
    c.client_to_upstream.phase == PumpPhase::Failed || c.upstream_to_client.phase
        == PumpPhase::Failed
}

/// A connection before anything happened.
pub open spec fn conn_fresh() -> ConnView {
    ConnView {
        phase: ConnPhase::Accepted,
        client_to_upstream: pump_fresh(Direction::ClientToUpstream),
        upstream_to_client: pump_fresh(Direction::UpstreamToClient),
        error: None,
    }
}

/// What holds of every reachable connection.  In particular it is relaying
/// exactly until both directions have ended, and it has failed exactly when
/// an error was recorded.
pub open spec fn conn_inv(c: ConnView) -> bool {
    &&& pump_inv(c.client_to_upstream)
    &&& pump_inv(c.upstream_to_client)
    &&& c.client_to_upstream.direction == Direction::ClientToUpstream
    &&& c.upstream_to_client.direction == Direction::UpstreamToClient
    &&& (c.phase == ConnPhase::Accepted || c.phase == ConnPhase::Connecting) ==> {
        &&& c.client_to_upstream == pump_fresh(Direction::ClientToUpstream)
        &&& c.upstream_to_client == pump_fresh(Direction::UpstreamToClient)
        &&& c.error is None
    }
    &&& c.phase == ConnPhase::Relaying ==> !both_ended(c) && (c.error is Some <==> some_failed(c))
    &&& c.phase == ConnPhase::Completed ==> {
        &&& c.client_to_upstream.phase == PumpPhase::Done
        &&& c.upstream_to_client.phase == PumpPhase::Done
        &&& c.error is None
    }
    &&& c.phase == ConnPhase::Failed ==> {
        ||| c.error matches Some(RelayError::UpstreamUnreachable(_))
            && c.client_to_upstream == pump_fresh(Direction::ClientToUpstream)
            && c.upstream_to_client == pump_fresh(Direction::UpstreamToClient)
        ||| c.error is Some && both_ended(c) && some_failed(c)
    }
}

/// After a pump moved: the connection ends once both directions have ended.
pub open spec fn settle(c: ConnView) -> ConnView {
    if both_ended(c) {
        ConnView {
            phase: if c.error is None {
                ConnPhase::Completed
            } else {
                ConnPhase::Failed
            },
            ..c
        }
    } else {
        c
    }
}

pub open spec fn conn_accepts(c: ConnView, i: ConnInput) -> bool {
    c.phase == ConnPhase::Relaying && match i {
        ConnInput::Pump(d, e) => e !is Broke && pump_accepts(pump_of(c, d), e),
        ConnInput::Fail(d, _) => pump_accepts(pump_of(c, d), PumpInput::Broke),
    }
}

pub open spec fn conn_next(c: ConnView, i: ConnInput) -> ConnView {
    match i {
        ConnInput::Pump(d, e) => settle(with_pump(c, d, pump_next(pump_of(c, d), e))),
        ConnInput::Fail(d, cause) => settle(
            with_pump(
                ConnView {
                    error: if c.error is None {
                        Some(failure_of(d, cause))
                    } else {
                        c.error
                    },
                    ..c
                },
                d,
                pump_next(pump_of(c, d), PumpInput::Broke),
            ),
        ),
    }
}

/// What the pump that the event is for asks for next.
pub open spec fn conn_output(c: ConnView, i: ConnInput) -> PumpOutput {
    match i {
        ConnInput::Pump(d, e) => pump_output(pump_of(c, d), e),
        ConnInput::Fail(d, _) => PumpOutput::Stop,
    }
}

/// A pump event as a connection event.
pub open spec fn conn_input(d: Direction, event: PumpEvent) -> ConnInput {
    match event {
        PumpEvent::Failed(cause) => ConnInput::Fail(d, cause),
        _ => ConnInput::Pump(d, event@),
    }
}

/// What a finished connection reports: the bytes delivered each way, or the
/// failure it recorded first.
pub open spec fn conn_outcome(c: ConnView) -> Result<RelayResult, RelayError> {
    if c.phase == ConnPhase::Completed {
        Ok(
            RelayResult {
                client_to_upstream_bytes: c.client_to_upstream.delivered.len() as u64,
                upstream_to_client_bytes: c.upstream_to_client.delivered.len() as u64,
            },
        )
    } else {
        Err(c.error->Some_0)
    }
}

/// The connection after a sequence of events, taken in order.
pub open spec fn conn_run(c: ConnView, evs: Seq<ConnInput>) -> ConnView
    decreases evs.len(),
{
    if evs.len() == 0 {
        c
    } else {
        conn_run(conn_next(c, evs[0]), evs.drop_first())
    }
}

/// Whether the connection accepts each event of the sequence in its turn.
pub open spec fn conn_trace_ok(c: ConnView, evs: Seq<ConnInput>) -> bool
    decreases evs.len(),
{
    evs.len() == 0 || (conn_accepts(c, evs[0]) && conn_trace_ok(
        conn_next(c, evs[0]),
        evs.drop_first(),
    ))
}

/// Pump events, all for one direction of the connection.
pub open spec fn tag(d: Direction, evs: Seq<PumpInput>) -> Seq<ConnInput> {
    evs.map_values(|e: PumpInput| ConnInput::Pump(d, e))
}

pub open spec fn other(d: Direction) -> Direction {
    match d {
        Direction::ClientToUpstream => Direction::UpstreamToClient,
        Direction::UpstreamToClient => Direction::ClientToUpstream,
    }
}

/// A connection whose upstream just opened.
pub open spec fn conn_started() -> ConnView {
    ConnView { phase: ConnPhase::Relaying, ..conn_fresh() }
}

/// Every accepted event keeps the connection's invariant.
pub proof fn lemma_conn_step_inv(c: ConnView, i: ConnInput)
    requires
        conn_inv(c),
        conn_accepts(c, i),
    ensures
        conn_inv(conn_next(c, i)),
{
    match i {
        ConnInput::Pump(d, e) => lemma_pump_step_inv(pump_of(c, d), e),
        ConnInput::Fail(d, _) => lemma_pump_step_inv(pump_of(c, d), PumpInput::Broke),
    }
}

/// Running two sequences one after the other is running their concatenation.
pub proof fn lemma_conn_run_append(c: ConnView, x: Seq<ConnInput>, y: Seq<ConnInput>)
    ensures
        conn_run(c, x + y) == conn_run(conn_run(c, x), y),
        conn_trace_ok(c, x + y) == (conn_trace_ok(c, x) && conn_trace_ok(conn_run(c, x), y)),
    decreases x.len(),
{
    if x.len() == 0 {
        assert(x + y =~= y);
    } else {
        assert((x + y)[0] == x[0]);
        assert((x + y).drop_first() =~= x.drop_first() + y);
        lemma_conn_run_append(conn_next(c, x[0]), x.drop_first(), y);
    }
}

/// The two directions are independent: events for one direction move that
/// pump exactly as it would move alone, leave the other pump and the recorded
/// error untouched, and the connection keeps relaying until both have ended.
pub proof fn lemma_relay_direction(c: ConnView, d: Direction, evs: Seq<PumpInput>)
    requires
        conn_inv(c),
        c.phase == ConnPhase::Relaying,
        pump_trace_ok(pump_of(c, d), evs),
        forall|i: int| 0 <= i < evs.len() ==> #[trigger] evs[i] !is Broke,
    ensures
        conn_trace_ok(c, tag(d, evs)),
        conn_inv(conn_run(c, tag(d, evs))),
        pump_of(conn_run(c, tag(d, evs)), d) == pump_run(pump_of(c, d), evs),
        pump_of(conn_run(c, tag(d, evs)), other(d)) == pump_of(c, other(d)),
        conn_run(c, tag(d, evs)).error == c.error,
        conn_run(c, tag(d, evs)).phase == if both_ended(conn_run(c, tag(d, evs))) {
            if c.error is None {
                ConnPhase::Completed
            } else {
                ConnPhase::Failed
            }
        } else {
            ConnPhase::Relaying
        },
    decreases evs.len(),
{
    let t = tag(d, evs);
    if evs.len() > 0 {
        let e = evs[0];
        let rest = evs.drop_first();
        assert(t[0] == ConnInput::Pump(d, e));
        assert(t.drop_first() =~= tag(d, rest));
        let c1 = conn_next(c, ConnInput::Pump(d, e));
        lemma_conn_step_inv(c, ConnInput::Pump(d, e));
        assert(pump_of(c1, d) == pump_next(pump_of(c, d), e));
        assert(pump_of(c1, other(d)) == pump_of(c, other(d)));
        assert(e !is Broke);
        assert(conn_accepts(c, ConnInput::Pump(d, e)));
        assert(pump_trace_ok(pump_next(pump_of(c, d), e), rest));
        if rest.len() > 0 {
            assert(rest[0] == evs[1]);
            assert(rest[0] !is Broke);
            assert(pump_accepts(pump_of(c1, d), rest[0]));
            assert(!pump_of(c1, d).phase.spec_is_terminal());
            assert(c1.phase == ConnPhase::Relaying);
            assert forall|i: int| 0 <= i < rest.len() implies #[trigger] rest[i] !is Broke by {
                assert(rest[i] == evs[i + 1]);
            }
            lemma_relay_direction(c1, d, rest);
        } else {
            assert(t.drop_first() =~= Seq::<ConnInput>::empty());
            assert(conn_run(c1, t.drop_first()) == c1);
            assert(conn_trace_ok(c1, t.drop_first()));
            assert(rest =~= Seq::<PumpInput>::empty());
            assert(pump_run(pump_next(pump_of(c, d), e), rest) == pump_next(pump_of(c, d), e));
        }
    } else {
        assert(t =~= Seq::<ConnInput>::empty());
    }
}

/// Half-close: once the client has ended its side and that direction is done,
/// the connection goes on carrying every byte the upstream sends to the
/// client, however many and however split, and completes only when the
/// upstream ends too.
pub proof fn lemma_half_close(c: ConnView, chunks: Seq<Seq<u8>>)
    requires
        conn_inv(c),
        c.phase == ConnPhase::Relaying,
        c.client_to_upstream.phase == PumpPhase::Done,
        c.upstream_to_client.phase == PumpPhase::Reading,
        forall|i: int| 0 <= i < chunks.len() ==> #[trigger] chunks[i].len() > 0,
        c.upstream_to_client.received.len() + chunks.flatten().len() <= u64::MAX,
    ensures
        conn_trace_ok(c, tag(Direction::UpstreamToClient, pump_feed(chunks))),
        conn_run(c, tag(Direction::UpstreamToClient, pump_feed(chunks))).phase
            == ConnPhase::Completed,
        conn_run(c, tag(Direction::UpstreamToClient, pump_feed(chunks))).upstream_to_client.delivered
            == c.upstream_to_client.delivered + chunks.flatten(),
        conn_run(c, tag(Direction::UpstreamToClient, pump_feed(chunks))).client_to_upstream
            == c.client_to_upstream,
{
    let d = Direction::UpstreamToClient;
    lemma_pump_delivers(c.upstream_to_client, chunks);
    lemma_relay_direction(c, d, pump_feed(chunks));
}

/// Byte fidelity and counters of a whole connection: whatever the client
/// sends, split however, reaches the upstream exactly and in order; whatever
/// the upstream sends back reaches the client the same way; the connection
/// completes and reports exactly those two byte counts.
pub proof fn lemma_relay_faithful(up: Seq<Seq<u8>>, down: Seq<Seq<u8>>)
    requires
        forall|i: int| 0 <= i < up.len() ==> #[trigger] up[i].len() > 0,
        forall|i: int| 0 <= i < down.len() ==> #[trigger] down[i].len() > 0,
        up.flatten().len() <= u64::MAX,
        down.flatten().len() <= u64::MAX,
    ensures
        ({
            let evs = tag(Direction::ClientToUpstream, pump_feed(up)) + tag(
                Direction::UpstreamToClient,
                pump_feed(down),
            );
            let r = conn_run(conn_started(), evs);
            &&& conn_trace_ok(conn_started(), evs)
            &&& r.phase == ConnPhase::Completed
            &&& r.client_to_upstream.delivered == up.flatten()
            &&& r.upstream_to_client.delivered == down.flatten()
            &&& conn_outcome(r) == Ok::<RelayResult, RelayError>(
                RelayResult {
                    client_to_upstream_bytes: up.flatten().len() as u64,
                    upstream_to_client_bytes: down.flatten().len() as u64,
                },
            )
        }),
{
    let c = conn_started();
    let x = tag(Direction::ClientToUpstream, pump_feed(up));
    let y = tag(Direction::UpstreamToClient, pump_feed(down));
    lemma_pump_delivers(c.client_to_upstream, up);
    lemma_relay_direction(c, Direction::ClientToUpstream, pump_feed(up));
    let c1 = conn_run(c, x);
    assert(Seq::<u8>::empty() + up.flatten() =~= up.flatten());
    assert(Seq::<u8>::empty() + down.flatten() =~= down.flatten());
    lemma_half_close(c1, down);
    lemma_conn_run_append(c, x, y);
}

/// A failure in one direction cancels nothing: the other direction still
/// carries its whole payload, however split, and only then does the
/// connection end, failed, with that first failure as its report.
pub proof fn lemma_failure_waits_for_other(
    c: ConnView,
    d: Direction,
    cause: TransportError,
    chunks: Seq<Seq<u8>>,
)
    requires
        conn_inv(c),
        c.phase == ConnPhase::Relaying,
        c.error is None,
        !pump_of(c, d).phase.spec_is_terminal(),
        pump_of(c, other(d)).phase == PumpPhase::Reading,
        forall|i: int| 0 <= i < chunks.len() ==> #[trigger] chunks[i].len() > 0,
        pump_of(c, other(d)).received.len() + chunks.flatten().len() <= u64::MAX,
    ensures
        ({
            let evs = seq![ConnInput::Fail(d, cause)] + tag(other(d), pump_feed(chunks));
            let r = conn_run(c, evs);
            &&& conn_trace_ok(c, evs)
            &&& r.phase == ConnPhase::Failed
            &&& pump_of(r, other(d)).delivered == pump_of(c, other(d)).delivered
                + chunks.flatten()
            &&& conn_outcome(r) == Err::<RelayResult, RelayError>(failure_of(d, cause))
        }),
{
    let f = ConnInput::Fail(d, cause);
    let t = tag(other(d), pump_feed(chunks));
    let c1 = conn_next(c, f);
    lemma_conn_step_inv(c, f);
    assert(pump_of(c1, other(d)) == pump_of(c, other(d)));
    assert(c1.phase == ConnPhase::Relaying);
    lemma_pump_delivers(pump_of(c1, other(d)), chunks);
    lemma_relay_direction(c1, other(d), pump_feed(chunks));
    assert(other(other(d)) == d);
    let one = seq![f];
    lemma_conn_run_append(c, one, t);
    assert(one[0] == f);
    assert(one.drop_first() =~= Seq::<ConnInput>::empty());
    assert(conn_run(c1, one.drop_first()) == c1);
    assert(conn_trace_ok(c1, one.drop_first()));
    assert(conn_accepts(c, f));
}

/// One accepted client connection and, once open, its upstream connection.
pub struct Connection {
    phase: ConnPhase,
    client_to_upstream: Pump,
    upstream_to_client: Pump,
    error: Option<RelayError>,
}

impl View for Connection {
    type V = ConnView;

    closed spec fn view(&self) -> ConnView {
        ConnView {
            phase: self.phase,
            client_to_upstream: self.client_to_upstream@,
            upstream_to_client: self.upstream_to_client@,
            error: self.error,
        }
    }
}

impl Connection {
    /// Both pumps keep their counters in step with their models.
    pub closed spec fn pumps_wf(&self) -> bool {
        self.client_to_upstream.wf() && self.upstream_to_client.wf()
    }

    pub open spec fn wf(&self) -> bool {
        conn_inv(self@) && self.pumps_wf()
    }

    /// A freshly accepted client connection.
    pub fn new() -> (r: Connection)
        ensures
            r.wf(),
            r@ == conn_fresh(),
    {
        Connection {
            phase: ConnPhase::Accepted,
            client_to_upstream: Pump::new(Direction::ClientToUpstream),
            upstream_to_client: Pump::new(Direction::UpstreamToClient),
            error: None,
        }
    }

    pub fn phase(&self) -> (r: ConnPhase)
        ensures
            r == self@.phase,
    {
        self.phase
    }

    /// Whether the connection has reached `Completed` or `Failed`.
    pub fn is_finished(&self) -> (r: bool)
        ensures
            r == (self@.phase == ConnPhase::Completed || self@.phase == ConnPhase::Failed),
    {
        match self.phase {
            ConnPhase::Completed | ConnPhase::Failed => true,
            _ => false,
        }
    }

    /// The bytes delivered so far in each direction.
    pub fn counts(&self) -> (r: RelayResult)
        requires
            self.wf(),
        ensures
            r.client_to_upstream_bytes == self@.client_to_upstream.delivered.len(),
            r.upstream_to_client_bytes == self@.upstream_to_client.delivered.len(),
    {
        RelayResult {
            client_to_upstream_bytes: self.client_to_upstream.transferred(),
            upstream_to_client_bytes: self.upstream_to_client.transferred(),
        }
    }

    /// Starts opening the upstream connection.
    pub fn begin(&mut self) -> (action: ConnAction)
        requires
            old(self).wf(),
            old(self)@.phase == ConnPhase::Accepted,
        ensures
            final(self).wf(),
            final(self)@ == (ConnView { phase: ConnPhase::Connecting, ..old(self)@ }),
            action == ConnAction::ConnectUpstream,
    {
        self.phase = ConnPhase::Connecting;
        ConnAction::ConnectUpstream
    }

    /// Takes the outcome of opening the upstream connection.  On success both
    /// pumps start; on failure the connection fails as unreachable and the
    /// client connection is to be closed.
    pub fn on_connected(&mut self, outcome: Result<(), TransportError>) -> (action: ConnAction)
        requires
            old(self).wf(),
            old(self)@.phase == ConnPhase::Connecting,
        ensures
            final(self).wf(),
            final(self)@.client_to_upstream == old(self)@.client_to_upstream,
            final(self)@.upstream_to_client == old(self)@.upstream_to_client,
            outcome is Ok ==> {
                &&& final(self)@.phase == ConnPhase::Relaying
                &&& final(self)@.error is None
                &&& action == ConnAction::StartRelaying
            },
            outcome matches Err(e) ==> {
                &&& final(self)@.phase == ConnPhase::Failed
                &&& final(self)@.error == Some(RelayError::UpstreamUnreachable(e))
                &&& action == ConnAction::CloseClient
            },
    {
        match outcome {
            Ok(()) => {
                self.phase = ConnPhase::Relaying;
                ConnAction::StartRelaying
            },
            Err(e) => {
                self.phase = ConnPhase::Failed;
                self.error = Some(RelayError::UpstreamUnreachable(e));
                ConnAction::CloseClient
            },
        }
    }

    /// Whether `on_event` may be called with this event now.
    pub fn accepts(&self, direction: Direction, event: &PumpEvent) -> (r: bool)
        requires
            self.wf(),
        ensures
            r == conn_accepts(self@, conn_input(direction, *event)),
    {
        match self.phase {
            ConnPhase::Relaying => match direction {
                Direction::ClientToUpstream => self.client_to_upstream.accepts(event),
                Direction::UpstreamToClient => self.upstream_to_client.accepts(event),
            },
            _ => false,
        }
    }

    /// Takes the outcome of a pump's last operation and says what that pump
    /// does next.  A failure is recorded (the first one is kept) and stops
    /// that pump only: the other direction runs on until it ends too.
    pub fn on_event(&mut self, direction: Direction, event: PumpEvent) -> (action: PumpAction)
        requires
            old(self).wf(),
            conn_accepts(old(self)@, conn_input(direction, event)),
        ensures
            final(self).wf(),
            final(self)@ == conn_next(old(self)@, conn_input(direction, event)),
            action@ == conn_output(old(self)@, conn_input(direction, event)),
    {
        let action = match event {
            PumpEvent::Failed(cause) => {
                if self.error.is_none() {
                    self.error = Some(classify(direction, cause));
                }
                match direction {
                    Direction::ClientToUpstream => self.client_to_upstream.halt(),
                    Direction::UpstreamToClient => self.upstream_to_client.halt(),
                }
                PumpAction::Stop
            },
            other => match direction {
                Direction::ClientToUpstream => self.client_to_upstream.step(other),
                Direction::UpstreamToClient => self.upstream_to_client.step(other),
            },
        };
        if self.client_to_upstream.phase().is_terminal()
            && self.upstream_to_client.phase().is_terminal() {
            self.phase =
            if self.error.is_none() {
                ConnPhase::Completed
            } else {
                ConnPhase::Failed
            };
        }
        action
    }

    /// Ends a finished connection with its report.
    pub fn finish(self) -> (r: Result<RelayResult, RelayError>)
        requires
            self.wf(),
            self@.phase == ConnPhase::Completed || self@.phase == ConnPhase::Failed,
        ensures
            r == conn_outcome(self@),
    {
        let counts = self.counts();
        match self.error {
            Some(e) => Err(e),
            None => Ok(counts),
        }
    }
}

} // verus!
