//! The state of the relay between its five stages: the three queues that
//! carry payloads and log events from one stage to the next, and the handoff
//! that lets the two users of the transport take turns.
//!
//! Each method is one step of one stage. The stage's blocking call stands
//! between two steps and is the caller's: the step before it says what to do,
//! the step after it takes what came back.

use crate::codec::{decode_frame, encode_frame, frame_bytes, frame_payload, is_valid_length, Endian};
use crate::journal::{entry_bytes, log_entry, LogEvent, Origin};
use crate::transport::{read_socket, received, write_socket, write_succeeded};
use vstd::prelude::*;

verus! {

/// Where the handoff between the transport's writer and its reader stands.
#[derive(Clone, Copy, Debug, PartialEq, Eq, Structural)]
pub enum Phase {
    /// Nothing is in flight: the writer may take the next request.
    Idle,
    /// The writer holds a request and is writing it.
    Writing,
    /// The write went through and its signal waits for the reader.
    Signalled,
    /// The reader has taken the signal and is reading the response.
    Reading,
}

/// What the transport sees of the relay.
#[derive(Clone, Copy, Debug, PartialEq, Eq, Structural)]
pub enum TransportOp {
    /// A payload was written, and the write went through.
    Write,
    /// A read was attempted.
    Read,
}

/// The relay's state as contracts see it.
pub struct BridgeState {
    /// The byte order of the host's frames.
    pub order: Endian,
    /// Where the handoff stands.
    pub phase: Phase,
    /// Payloads read from the host that wait for the transport's writer.
    pub requests: Seq<Seq<u8>>,
    /// Payloads read from the transport that wait for the host's writer.
    pub responses: Seq<Seq<u8>>,
    /// Events that wait for the logger.
    pub events: Seq<(Origin, Seq<u8>)>,
    /// Every write that went through and every read attempt, oldest first.
    pub trace: Seq<TransportOp>,
    /// Every payload ever forwarded, in either direction, oldest first.
    pub forwarded: Seq<(Origin, Seq<u8>)>,
    /// Every event that the logger has taken, oldest first.
    pub logged: Seq<(Origin, Seq<u8>)>,
}

/// Whether every payload of a queue has a valid frame length.
pub open spec fn all_valid(queue: Seq<Seq<u8>>) -> bool {
    forall|i: int| 0 <= i < queue.len() ==> is_valid_length(#[trigger] queue[i].len() as int)
}

/// Whether writes and reads take turns, starting with a write.
pub open spec fn alternates(trace: Seq<TransportOp>) -> bool {
    forall|i: int|
        0 <= i < trace.len() ==> #[trigger] trace[i] == if i % 2 == 0 {
            TransportOp::Write
        } else {
            TransportOp::Read
        }
}

impl BridgeState {
    /// The state before anything has happened.
    pub open spec fn initial(order: Endian) -> BridgeState {
        BridgeState {
            order,
            phase: Phase::Idle,
            requests: Seq::empty(),
            responses: Seq::empty(),
            events: Seq::empty(),
            trace: Seq::empty(),
            forwarded: Seq::empty(),
            logged: Seq::empty(),
        }
    }

    /// The number of signals that were sent and not yet taken.
    pub open spec fn outstanding_signals(self) -> nat {
        if self.phase == Phase::Signalled {
            1
        } else {
            0
        }
    }

    /// What holds of every state that the steps can reach: queued payloads
    /// have valid lengths; on the transport writes and reads take turns, and
    /// a signal is outstanding exactly while a write waits for its read; and
    /// the log, with what still waits for the logger, holds every forwarded
    /// payload once and in the order of arrival.
    pub open spec fn wf(self) -> bool {
        &&& all_valid(self.requests)
        &&& all_valid(self.responses)
        &&& alternates(self.trace)
        &&& (self.trace.len() % 2 == 1 <==> self.phase == Phase::Signalled)
        &&& self.forwarded == self.logged + self.events
    }

    /// A payload taken into a queue together with its log event.
    pub open spec fn forward(self, origin: Origin, payload: Seq<u8>) -> BridgeState {
        let event = (origin, payload);
        let next = BridgeState {
            events: self.events.push(event),
            forwarded: self.forwarded.push(event),
            ..self
        };
        match origin {
            Origin::Host => BridgeState { requests: self.requests.push(payload), ..next },
            Origin::Transport => BridgeState { responses: self.responses.push(payload), ..next },
        }
    }

    /// After the host's reader has handed in what it read: a whole valid
    /// frame is forwarded and logged, anything else changes nothing.
    pub open spec fn after_stdin(self, stream: Seq<u8>) -> BridgeState {
        match frame_payload(self.order, stream) {
            Some(payload) => self.forward(Origin::Host, payload),
            None => self,
        }
    }

    /// Whether the transport's writer may take a request now.
    pub open spec fn can_write(self) -> bool {
        self.phase == Phase::Idle && self.requests.len() > 0
    }

    /// After the transport's writer has asked for a request.
    pub open spec fn after_take_request(self) -> BridgeState {
        if self.can_write() {
            BridgeState { phase: Phase::Writing, requests: self.requests.skip(1), ..self }
        } else {
            self
        }
    }

    /// After the transport's writer has reported how its write went: a
    /// signal for the reader where it went through, back to idle where not.
    pub open spec fn after_write(self, succeeded: bool) -> BridgeState {
        if self.phase != Phase::Writing {
            self
        } else if succeeded {
            BridgeState {
                phase: Phase::Signalled,
                trace: self.trace.push(TransportOp::Write),
                ..self
            }
        } else {
            BridgeState { phase: Phase::Idle, ..self }
        }
    }

    /// After the transport's reader has asked for the signal.
    pub open spec fn after_take_signal(self) -> BridgeState {
        if self.phase == Phase::Signalled {
            BridgeState {
                phase: Phase::Reading,
                trace: self.trace.push(TransportOp::Read),
                ..self
            }
        } else {
            self
        }
    }

    /// After the transport's reader has reported what its read brought: a
    /// payload is forwarded and logged, nothing else is, and the handoff is
    /// idle again either way.
    pub open spec fn after_read(self, brought: Option<Seq<u8>>) -> BridgeState {
        if self.phase != Phase::Reading {
            self
        } else {
            let idle = BridgeState { phase: Phase::Idle, ..self };
            match brought {
                Some(payload) => idle.forward(Origin::Transport, payload),
                None => idle,
            }
        }
    }

    /// After the host's writer has asked for a response.
    pub open spec fn after_take_response(self) -> BridgeState {
        if self.responses.len() > 0 {
            BridgeState { responses: self.responses.skip(1), ..self }
        } else {
            self
        }
    }

    /// After the logger has asked for an event.
    pub open spec fn after_take_event(self) -> BridgeState {
        if self.events.len() > 0 {
            BridgeState {
                events: self.events.skip(1),
                logged: self.logged.push(self.events[0]),
                ..self
            }
        } else {
            self
        }
    }
}

/// The relay's state.
pub struct Bridge {
    order: Endian,
    phase: Phase,
    requests: Vec<Vec<u8>>,
    responses: Vec<Vec<u8>>,
    events: Vec<LogEvent>,
    trace: Ghost<Seq<TransportOp>>,
    forwarded: Ghost<Seq<(Origin, Seq<u8>)>>,
    logged: Ghost<Seq<(Origin, Seq<u8>)>>,
}

impl View for Bridge {
    type V = BridgeState;

    closed spec fn view(&self) -> BridgeState {
        BridgeState {
            order: self.order,
            phase: self.phase,
            requests: Seq::new(self.requests@.len(), |i: int| self.requests@[i]@),
            responses: Seq::new(self.responses@.len(), |i: int| self.responses@[i]@),
            events: Seq::new(self.events@.len(), |i: int| self.events@[i]@),
            trace: self.trace@,
            forwarded: self.forwarded@,
            logged: self.logged@,
        }
    }
}

impl Bridge {
    /// A relay in which nothing has happened yet, for a host whose frames
    /// are in the given byte order.
    pub fn new(order: Endian) -> (bridge: Bridge)
        ensures
            bridge@ == BridgeState::initial(order),
            bridge@.wf(),
    {
        let bridge = Bridge {
            order,
            phase: Phase::Idle,
            requests: Vec::new(),
            responses: Vec::new(),
            events: Vec::new(),
            trace: Ghost(Seq::empty()),
            forwarded: Ghost(Seq::empty()),
            logged: Ghost(Seq::empty()),
        };
        assert(bridge@.requests =~= Seq::empty());
        assert(bridge@.responses =~= Seq::empty());
        assert(bridge@.events =~= Seq::empty());
        assert(bridge@.logged + bridge@.events =~= Seq::empty());
        bridge
    }

    /// Where the handoff stands.
    pub fn phase(&self) -> (phase: Phase)
        ensures
            phase == self@.phase,
    {
        self.phase
    }

    /// The byte order of the host's frames.
    pub fn order(&self) -> (order: Endian)
        ensures
            order == self@.order,
    {
        self.order
    }

    fn forward(&mut self, origin: Origin, payload: Vec<u8>)
        requires
            old(self)@.wf(),
            is_valid_length(payload@.len() as int),
        ensures
            final(self)@ == old(self)@.forward(origin, payload@),
            final(self)@.wf(),
    {
        let copy: Vec<u8> = vstd::slice::slice_to_vec(payload.as_slice());
        let event = LogEvent { origin, payload: copy };
        proof {
            self.forwarded@ = self.forwarded@.push(event@);
        }
        self.events.push(event);
        match origin {
            Origin::Host => {
                self.requests.push(payload);
            },
            Origin::Transport => {
                self.responses.push(payload);
            },
        }
        proof {
            let before = old(self)@;
            let after = before.forward(origin, payload@);
            assert(self@.events =~= after.events);
            assert(self@.requests =~= after.requests);
            assert(self@.responses =~= after.responses);
            assert(after.logged + after.events =~= after.forwarded);
        }
    }

    /// The host reader's step. `stream` is what was read from standard
    /// input: a prefix and the bytes that could be read behind it. A whole
    /// valid frame is queued for the transport and for the log; a frame that
    /// is cut short, empty or oversized is dropped and nothing changes.
    pub fn accept_stdin(&mut self, stream: &[u8]) -> (forwarded: bool)
        requires
            old(self)@.wf(),
        ensures
            final(self)@ == old(self)@.after_stdin(stream@),
            final(self)@.wf(),
            forwarded == frame_payload(old(self)@.order, stream@).is_some(),
    {
        match decode_frame(self.order, stream) {
            Some(payload) => {
                self.forward(Origin::Host, payload);
                true
            },
            None => false,
        }
    }

    /// The transport writer's first step: takes the oldest request, if
    /// nothing is in flight and one waits.
    pub fn take_request(&mut self) -> (request: Option<Vec<u8>>)
        requires
            old(self)@.wf(),
        ensures
            final(self)@ == old(self)@.after_take_request(),
            final(self)@.wf(),
            match request {
                Some(payload) => old(self)@.can_write() && payload@ == old(self)@.requests[0],
                None => !old(self)@.can_write(),
            },
    {
        if self.phase == Phase::Idle && self.requests.len() > 0 {
            let payload: Vec<u8> = self.requests.remove(0);
            self.phase = Phase::Writing;
            proof {
                let after = old(self)@.after_take_request();
                assert(self@.requests =~= after.requests);
                assert(self@.responses =~= after.responses);
                assert(self@.events =~= after.events);
            }
            Some(payload)
        } else {
            None
        }
    }

    /// The transport writer's second step, with the outcome of its write and
    /// flush. Says whether the reader was signalled: exactly where a write
    /// was under way and went through.
    pub fn complete_write(&mut self, written: Option<usize>, flushed: bool) -> (signal: bool)
        requires
            old(self)@.wf(),
        ensures
            final(self)@ == old(self)@.after_write(write_succeeded(written, flushed)),
            final(self)@.wf(),
            signal == (old(self)@.phase == Phase::Writing && write_succeeded(written, flushed)),
    {
        if self.phase != Phase::Writing {
            return false;
        }
        let signal: bool = write_socket(written, flushed);
        if signal {
            self.phase = Phase::Signalled;
            proof {
                self.trace@ = self.trace@.push(TransportOp::Write);
            }
        } else {
            self.phase = Phase::Idle;
        }
        proof {
            let after = old(self)@.after_write(write_succeeded(written, flushed));
            assert(self@.requests =~= after.requests);
            assert(self@.responses =~= after.responses);
            assert(self@.events =~= after.events);
        }
        signal
    }

    /// The transport reader's first step: takes the signal, if one waits.
    /// Only then may the reader read.
    pub fn take_signal(&mut self) -> (taken: bool)
        requires
            old(self)@.wf(),
        ensures
            final(self)@ == old(self)@.after_take_signal(),
            final(self)@.wf(),
            taken == (old(self)@.phase == Phase::Signalled),
    {
        if self.phase == Phase::Signalled {
            self.phase = Phase::Reading;
            proof {
                self.trace@ = self.trace@.push(TransportOp::Read);
                let after = old(self)@.after_take_signal();
                assert(self@.requests =~= after.requests);
                assert(self@.responses =~= after.responses);
                assert(self@.events =~= after.events);
            }
            true
        } else {
            false
        }
    }

    /// The transport reader's second step, with the buffer it read into and
    /// the outcome of the read. A payload that the read brought is queued
    /// for the host and for the log; a read that failed or brought nothing
    /// is dropped. Says whether a payload was forwarded.
    pub fn complete_read(&mut self, buf: &[u8], outcome: Option<usize>) -> (forwarded: bool)
        requires
            old(self)@.wf(),
        ensures
            final(self)@ == old(self)@.after_read(received(buf@, outcome)),
            final(self)@.wf(),
            forwarded == (old(self)@.phase == Phase::Reading && received(buf@, outcome).is_some()),
    {
        if self.phase != Phase::Reading {
            return false;
        }
        self.phase = Phase::Idle;
        proof {
            let idle = BridgeState { phase: Phase::Idle, ..old(self)@ };
            assert(self@.requests =~= idle.requests);
            assert(self@.responses =~= idle.responses);
            assert(self@.events =~= idle.events);
            assert(self@ == idle);
        }
        match read_socket(buf, outcome) {
            Some(payload) => {
                self.forward(Origin::Transport, payload);
                true
            },
            None => false,
        }
    }

    /// The host writer's step: takes the oldest response, if one waits, as
    /// the frame to write to standard output.
    pub fn take_stdout_frame(&mut self) -> (frame: Option<Vec<u8>>)
        requires
            old(self)@.wf(),
        ensures
            final(self)@ == old(self)@.after_take_response(),
            final(self)@.wf(),
            match frame {
                Some(bytes) => old(self)@.responses.len() > 0 && bytes@ == frame_bytes(
                    old(self)@.order,
                    old(self)@.responses[0],
                ),
                None => old(self)@.responses.len() == 0,
            },
    {
        if self.responses.len() == 0 {
            return None;
        }
        assert(is_valid_length(self@.responses[0].len() as int));
        let payload: Vec<u8> = self.responses.remove(0);
        proof {
            let after = old(self)@.after_take_response();
            assert(self@.requests =~= after.requests);
            assert(self@.responses =~= after.responses);
            assert(self@.events =~= after.events);
        }
        Some(encode_frame(self.order, payload.as_slice()))
    }

    /// The logger's step: takes the oldest event, if one waits, as the bytes
    /// to append to the log.
    pub fn take_log_entry(&mut self) -> (entry: Option<Vec<u8>>)
        requires
            old(self)@.wf(),
        ensures
            final(self)@ == old(self)@.after_take_event(),
            final(self)@.wf(),
            match entry {
                Some(bytes) => old(self)@.events.len() > 0 && bytes@ == entry_bytes(
                    old(self)@.events[0].0,
                    old(self)@.events[0].1,
                ),
                None => old(self)@.events.len() == 0,
            },
    {
        if self.events.len() == 0 {
            return None;
        }
        let event: LogEvent = self.events.remove(0);
        proof {
            self.logged@ = self.logged@.push(event@);
            let after = old(self)@.after_take_event();
            assert(self@.requests =~= after.requests);
            assert(self@.responses =~= after.responses);
            assert(self@.events =~= after.events);
            assert(after.logged + after.events =~= old(self)@.logged + old(self)@.events);
        }
        Some(log_entry(&event))
    }
}

/// One step of one stage, with what the stage's blocking call brought.
pub enum Step {
    /// The host's reader hands in what it read from standard input.
    Stdin(Seq<u8>),
    /// The transport's writer asks for a request.
    TakeRequest,
    /// The transport's writer reports whether its write went through.
    Write(bool),
    /// The transport's reader asks for the signal.
    TakeSignal,
    /// The transport's reader reports its buffer and the read's outcome.
    Read(Seq<u8>, Option<usize>),
    /// The host's writer asks for a response.
    TakeResponse,
    /// The logger asks for an event.
    TakeEvent,
}

impl BridgeState {
    /// The state after one step.
    pub open spec fn step(self, step: Step) -> BridgeState {
        match step {
            Step::Stdin(stream) => self.after_stdin(stream),
            Step::TakeRequest => self.after_take_request(),
            Step::Write(succeeded) => self.after_write(succeeded),
            Step::TakeSignal => self.after_take_signal(),
            Step::Read(buf, outcome) => self.after_read(received(buf, outcome)),
            Step::TakeResponse => self.after_take_response(),
            Step::TakeEvent => self.after_take_event(),
        }
    }

    /// The state after a sequence of steps, in whatever order the stages
    /// came to run.
    pub open spec fn run(self, steps: Seq<Step>) -> BridgeState
        decreases steps.len(),
    {
        if steps.len() == 0 {
            self
        } else {
            self.run(steps.drop_last()).step(steps.last())
        }
    }
}

/// No step leaves the well-formed states.
pub proof fn step_keeps_wf(state: BridgeState, step: Step)
    requires
        state.wf(),
    ensures
        state.step(step).wf(),
{
    let next = state.step(step);
    match step {
        Step::Stdin(stream) => {
            if let Some(payload) = frame_payload(state.order, stream) {
                assert(next.logged + next.events =~= next.forwarded);
            }
        },
        Step::Read(buf, outcome) => {
            if state.phase == Phase::Reading {
                if let Some(payload) = received(buf, outcome) {
                    assert(next.logged + next.events =~= next.forwarded);
                }
            }
        },
        Step::TakeEvent => {
            assert(next.logged + next.events =~= state.logged + state.events);
        },
        _ => {},
    }
}

/// Every state that the relay reaches from its start, by any steps in any
/// order, is well-formed.
pub proof fn run_keeps_wf(order: Endian, steps: Seq<Step>)
    ensures
        BridgeState::initial(order).run(steps).wf(),
    decreases steps.len(),
{
    let start = BridgeState::initial(order);
    if steps.len() == 0 {
        assert(start.logged + start.events =~= start.forwarded);
    } else {
        run_keeps_wf(order, steps.drop_last());
        step_keeps_wf(start.run(steps.drop_last()), steps.last());
    }
}

/// Strict alternation: whatever the stages do and in whatever order, the
/// transport sees a write first, never two writes in a row and never two
/// reads in a row, and at most one signal is outstanding.
pub proof fn strict_alternation(order: Endian, steps: Seq<Step>)
    ensures
        ({
            let state = BridgeState::initial(order).run(steps);
            &&& state.outstanding_signals() <= 1
            &&& state.trace.len() > 0 ==> state.trace[0] == TransportOp::Write
            &&& forall|i: int|
                0 <= i && i + 1 < state.trace.len() ==> #[trigger] state.trace[i] != state.trace[i
                    + 1]
        }),
{
    run_keeps_wf(order, steps);
}

/// A write is handed out only while nothing is in flight, and a read is
/// allowed only while a write that went through waits for it.
pub proof fn turns_are_exclusive(state: BridgeState)
    requires
        state.wf(),
    ensures
        state.after_take_request() != state ==> state.trace.len() % 2 == 0,
        state.after_take_signal() != state ==> state.trace.len() % 2 == 1
            && state.trace.last() == TransportOp::Write,
{
}

/// Log fidelity: whatever the stages do, the events that the logger has
/// taken are the payloads forwarded so far, in the order of arrival, less
/// those that still wait in its queue.
pub proof fn log_fidelity(order: Endian, steps: Seq<Step>)
    ensures
        ({
            let state = BridgeState::initial(order).run(steps);
            &&& state.forwarded == state.logged + state.events
            &&& state.logged.len() <= state.forwarded.len()
            &&& forall|i: int|
                0 <= i < state.logged.len() ==> #[trigger] state.logged[i] == state.forwarded[i]
            &&& state.events.len() == 0 ==> state.logged == state.forwarded
        }),
{
    run_keeps_wf(order, steps);
    let state = BridgeState::initial(order).run(steps);
    if state.events.len() == 0 {
        assert(state.logged + state.events =~= state.logged);
    }
}

/// A payload enters a queue only together with its log event, and an event
/// only together with its payload.
pub proof fn forwarding_is_logged(state: BridgeState, step: Step)
    requires
        state.wf(),
    ensures
        ({
            let next = state.step(step);
            let grew = next.requests.len() > state.requests.len() || next.responses.len()
                > state.responses.len();
            &&& grew <==> next.forwarded.len() > state.forwarded.len()
            &&& grew ==> next.forwarded == state.forwarded.push(next.forwarded.last())
            &&& next.requests.len() > state.requests.len() ==> next.forwarded.last() == (
                Origin::Host,
                next.requests.last(),
            )
            &&& next.responses.len() > state.responses.len() ==> next.forwarded.last() == (
                Origin::Transport,
                next.responses.last(),
            )
        }),
{
}

/// Stall on a broken transport: after a write that did not go through no
/// signal is outstanding, the transport's reader gets no turn, its report is
/// ignored, and no response is queued for the host.
pub proof fn failed_write_stalls(state: BridgeState, buf: Seq<u8>, outcome: Option<usize>)
    requires
        state.wf(),
        state.phase == Phase::Writing,
    ensures
        ({
            let stalled = state.after_write(false);
            &&& stalled.outstanding_signals() == 0
            &&& stalled.trace == state.trace
            &&& stalled.responses == state.responses
            &&& stalled.after_take_signal() == stalled
            &&& stalled.after_read(received(buf, outcome)) == stalled
        }),
{
}

/// A response is queued for the host by one step only: the report of a read
/// that brought a payload, made while a read was under way.
pub proof fn responses_come_from_reads(state: BridgeState, step: Step)
    requires
        state.wf(),
        state.step(step).responses.len() > state.responses.len(),
    ensures
        state.phase == Phase::Reading,
        step matches Step::Read(buf, outcome) && received(buf, outcome).is_some()
            && state.step(step).responses == state.responses.push(
            received(buf, outcome).unwrap(),
        ),
{
}

/// Round trip: on a relay at rest, a valid frame from the host whose payload
/// the transport echoes comes back to the host as the same frame.
pub proof fn echo_round_trip(state: BridgeState, payload: Seq<u8>, rest: Seq<u8>, buf: Seq<u8>)
    requires
        state.wf(),
        state.phase == Phase::Idle,
        state.requests.len() == 0,
        state.responses.len() == 0,
        is_valid_length(payload.len() as int),
        buf.len() >= payload.len(),
        buf.subrange(0, payload.len() as int) == payload,
    ensures
        ({
            let queued = state.after_stdin(frame_bytes(state.order, payload) + rest);
            let answered = queued.after_take_request().after_write(true).after_take_signal()
                .after_read(received(buf, Some(payload.len() as usize)));
            &&& queued.requests == seq![payload]
            &&& answered.responses == seq![payload]
            &&& frame_payload(state.order, frame_bytes(state.order, answered.responses[0]))
                == Some(payload)
        }),
{
    crate::codec::frame_round_trip(state.order, payload, rest);
    crate::codec::frame_round_trip(state.order, payload, Seq::empty());
    let queued = state.after_stdin(frame_bytes(state.order, payload) + rest);
    assert(queued.requests =~= seq![payload]);
    let sent = queued.after_take_request();
    assert(sent.requests =~= Seq::<Seq<u8>>::empty());
    let answered = sent.after_write(true).after_take_signal().after_read(
        received(buf, Some(payload.len() as usize)),
    );
    assert(answered.responses =~= seq![payload]);
    assert(frame_bytes(state.order, payload) + Seq::<u8>::empty() =~= frame_bytes(
        state.order,
        payload,
    ));
}

} // verus!
