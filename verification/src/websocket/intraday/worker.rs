//! The decisions of a stream worker. A worker owns one connection. Whoever
//! runs it carries out the action that the worker asks for and reports what
//! came of it as the next event.

use vstd::prelude::*;

verus! {

/// Where a worker is in its life.
#[derive(Clone, Copy, Debug, PartialEq, Eq, Structural)]
pub enum Phase {
    Connecting,
    Reading,
    Stopped,
}

/// What a worker is waiting for.
#[derive(Clone, Copy, Debug, PartialEq, Eq, Structural)]
pub enum Stage {
    /// The handshake is under way.
    Connecting,
    /// The stop flag is to be looked at.
    Polling,
    /// A frame is to be read.
    Receiving,
    /// The frame that was read is to be decoded.
    Decoding,
    /// The decoded message is to be handed to the consumer.
    Forwarding,
    /// The worker is done.
    Stopped,
}

/// What came of the action that the worker asked for.
#[derive(Debug)]
pub enum Event {
    /// The handshake succeeded.
    Connected,
    /// The handshake failed.
    ConnectFailed,
    /// The stop flag is not set.
    Running,
    /// The stop flag is set.
    StopRequested,
    /// A frame arrived, with this text.
    Frame(String),
    /// No frame could be read.
    ReadFailed,
    /// The frame is a message of the subscription.
    Decoded,
    /// The frame is no message of the subscription.
    DecodeFailed,
    /// The consumer has the message.
    Forwarded,
    /// The consumer is gone.
    ReceiverGone,
}

/// What the worker asks for next.
#[derive(Clone, Copy, Debug, PartialEq, Eq, Structural)]
pub enum Action {
    /// Open the connection.
    Connect,
    /// Look at the stop flag.
    Poll,
    /// Read one frame.
    Read,
    /// Decode the frame that was read last.
    Decode,
    /// Hand the decoded message to the consumer.
    Forward,
    /// Close the connection and end.
    Close,
    /// End; there is nothing to close.
    Halt,
}

/// What is worth a line in the log.
#[derive(Clone, Copy, Debug, PartialEq, Eq, Structural)]
pub enum Report {
    Nothing,
    HandshakeFailed,
    ReadFailed,
    DecodeFailed,
    ReceiverGone,
    /// The event does not answer what the worker asked for.
    OutOfTurn,
}

/// The worker's answer to an event.
#[derive(Clone, Copy, Debug, PartialEq, Eq, Structural)]
pub struct Step {
    pub action: Action,
    pub report: Report,
    /// How long to wait before the action is carried out, in milliseconds.
    pub pause_ms: u64,
}

/// A worker as plain values.
pub struct WorkerState {
    pub stage: Stage,
    /// How many reads in a row have failed.
    pub failures: nat,
}

/// The shortest pause after a failed read, in milliseconds.
pub const BACKOFF_FLOOR_MS: u64 = 100;

/// The longest pause after a failed read, in milliseconds.
pub const BACKOFF_CEILING_MS: u64 = 5000;

/// The most failures in a row that a worker counts.
pub const FAILURES_COUNTED: u32 = 1000;

/// The pause after `failures` failed reads in a row: none without a
/// failure, the floor after the first, then twice the pause before, capped
/// at the ceiling.
pub open spec fn backoff_ms(failures: nat) -> nat
    decreases failures,
{
    if failures == 0 {
        0
    } else if failures == 1 {
        BACKOFF_FLOOR_MS as nat
    } else {
        let before = backoff_ms((failures - 1) as nat);
        if 2 * before >= BACKOFF_CEILING_MS {
            BACKOFF_CEILING_MS as nat
        } else {
            2 * before
        }
    }
}

/// The phase that a stage belongs to.
pub open spec fn phase_of(stage: Stage) -> Phase {
    match stage {
        Stage::Connecting => Phase::Connecting,
        Stage::Stopped => Phase::Stopped,
        _ => Phase::Reading,
    }
}

/// The action that a worker in this stage is waiting to hear of.
pub open spec fn awaited(stage: Stage) -> Action {
    match stage {
        Stage::Connecting => Action::Connect,
        Stage::Polling => Action::Poll,
        Stage::Receiving => Action::Read,
        Stage::Decoding => Action::Decode,
        Stage::Forwarding => Action::Forward,
        Stage::Stopped => Action::Halt,
    }
}

/// Whether the event answers what a worker in this stage is waiting for.
pub open spec fn in_turn(stage: Stage, event: Event) -> bool {
    match stage {
        Stage::Connecting => event is Connected || event is ConnectFailed,
        Stage::Polling => event is Running || event is StopRequested,
        Stage::Receiving => event is Frame || event is ReadFailed,
        Stage::Decoding => event is Decoded || event is DecodeFailed,
        Stage::Forwarding => event is Forwarded || event is ReceiverGone,
        Stage::Stopped => true,
    }
}

/// The failures counted after one more.
pub open spec fn one_more(failures: nat) -> nat {
    if failures < FAILURES_COUNTED {
        failures + 1
    } else {
        failures
    }
}

/// The worker after an event, and its answer.
///
/// A stopped worker stays stopped. An event out of turn changes nothing and
/// has the worker ask again. In turn: a handshake leads to the first look at
/// the stop flag, or ends the worker where it failed; a set flag closes the
/// connection, a clear one leads to a read; an empty frame leads straight
/// back to the flag, any other frame to decoding; a message goes on to the
/// consumer; every failure while reading is reported and leads back to the
/// flag, a failed read after a pause.
pub open spec fn advance(state: WorkerState, event: Event) -> (WorkerState, Step) {
    let quiet = |stage: Stage, action: Action| (
        WorkerState { stage, failures: state.failures },
        Step { action, report: Report::Nothing, pause_ms: 0 },
    );
    let noted = |report: Report| (
        WorkerState { stage: Stage::Polling, failures: state.failures },
        Step { action: Action::Poll, report, pause_ms: 0 },
    );
    if state.stage == Stage::Stopped {
        quiet(Stage::Stopped, Action::Halt)
    } else if !in_turn(state.stage, event) {
        (state, Step { action: awaited(state.stage), report: Report::OutOfTurn, pause_ms: 0 })
    } else {
        match event {
            Event::Connected => quiet(Stage::Polling, Action::Poll),
            Event::ConnectFailed => (
                WorkerState { stage: Stage::Stopped, failures: state.failures },
                Step { action: Action::Halt, report: Report::HandshakeFailed, pause_ms: 0 },
            ),
            Event::Running => quiet(Stage::Receiving, Action::Read),
            Event::StopRequested => quiet(Stage::Stopped, Action::Close),
            Event::Frame(text) => if text@.len() == 0 {
                (
                    WorkerState { stage: Stage::Polling, failures: 0 },
                    Step { action: Action::Poll, report: Report::Nothing, pause_ms: 0 },
                )
            } else {
                (
                    WorkerState { stage: Stage::Decoding, failures: 0 },
                    Step { action: Action::Decode, report: Report::Nothing, pause_ms: 0 },
                )
            },
            Event::ReadFailed => (
                WorkerState { stage: Stage::Polling, failures: one_more(state.failures) },
                Step {
                    action: Action::Poll,
                    report: Report::ReadFailed,
                    pause_ms: backoff_ms(one_more(state.failures)) as u64,
                },
            ),
            Event::Decoded => quiet(Stage::Forwarding, Action::Forward),
            Event::DecodeFailed => noted(Report::DecodeFailed),
            Event::Forwarded => quiet(Stage::Polling, Action::Poll),
            Event::ReceiverGone => noted(Report::ReceiverGone),
        }
    }
}

/// The worker behind one subscription.
pub struct Worker {
    stage: Stage,
    failures: u32,
}

impl View for Worker {
    type V = WorkerState;

    closed spec fn view(&self) -> WorkerState {
        WorkerState { stage: self.stage, failures: self.failures as nat }
    }
}

/// The pause after `failures` failed reads in a row, in milliseconds.
pub fn backoff(failures: u32) -> (ms: u64)
    ensures
        ms == backoff_ms(failures as nat),
        failures > 0 ==> BACKOFF_FLOOR_MS <= ms <= BACKOFF_CEILING_MS,
{
    if failures == 0 {
        return 0;
    }
    let mut ms: u64 = BACKOFF_FLOOR_MS;
    let mut n: u32 = 1;
    while n < failures
        invariant
            1 <= n <= failures,
            ms == backoff_ms(n as nat),
            BACKOFF_FLOOR_MS <= ms <= BACKOFF_CEILING_MS,
        decreases failures - n,
    {
        ms = if 2 * ms >= BACKOFF_CEILING_MS {
            BACKOFF_CEILING_MS
        } else {
            2 * ms
        };
        n += 1;
    }
    ms
}

impl Worker {
    /// A worker whose handshake is under way.
    pub fn new() -> (w: Worker)
        ensures
            w@ == (WorkerState { stage: Stage::Connecting, failures: 0 }),
    {
        Worker { stage: Stage::Connecting, failures: 0 }
    }

    pub fn stage(&self) -> (stage: Stage)
        ensures
            stage == self@.stage,
    {
        self.stage
    }

    pub fn phase(&self) -> (phase: Phase)
        ensures
            phase == phase_of(self@.stage),
    {
        match self.stage {
            Stage::Connecting => Phase::Connecting,
            Stage::Stopped => Phase::Stopped,
            _ => Phase::Reading,
        }
    }

    /// The action that the worker is waiting to hear of.
    pub fn pending(&self) -> (action: Action)
        ensures
            action == awaited(self@.stage),
    {
        match self.stage {
            Stage::Connecting => Action::Connect,
            Stage::Polling => Action::Poll,
            Stage::Receiving => Action::Read,
            Stage::Decoding => Action::Decode,
            Stage::Forwarding => Action::Forward,
            Stage::Stopped => Action::Halt,
        }
    }

    /// Takes in what came of the last action and says what to do next.
    pub fn step(&mut self, event: Event) -> (step: Step)
        ensures
            (final(self)@, step) == advance(old(self)@, event),
    {
        let quiet = Report::Nothing;
        let stage = self.stage;
        match (stage, event) {
            (Stage::Stopped, _) => Step { action: Action::Halt, report: quiet, pause_ms: 0 },
            (Stage::Connecting, Event::Connected) => {
                self.stage = Stage::Polling;
                Step { action: Action::Poll, report: quiet, pause_ms: 0 }
            },
            (Stage::Connecting, Event::ConnectFailed) => {
                self.stage = Stage::Stopped;
                Step { action: Action::Halt, report: Report::HandshakeFailed, pause_ms: 0 }
            },
            (Stage::Polling, Event::Running) => {
                self.stage = Stage::Receiving;
                Step { action: Action::Read, report: quiet, pause_ms: 0 }
            },
            (Stage::Polling, Event::StopRequested) => {
                self.stage = Stage::Stopped;
                Step { action: Action::Close, report: quiet, pause_ms: 0 }
            },
            (Stage::Receiving, Event::Frame(text)) => {
                self.failures = 0;
                if text.as_str().is_empty() {
                    self.stage = Stage::Polling;
                    Step { action: Action::Poll, report: quiet, pause_ms: 0 }
                } else {
                    self.stage = Stage::Decoding;
                    Step { action: Action::Decode, report: quiet, pause_ms: 0 }
                }
            },
            (Stage::Receiving, Event::ReadFailed) => {
                if self.failures < FAILURES_COUNTED {
                    self.failures = self.failures + 1;
                }
                self.stage = Stage::Polling;
                Step {
                    action: Action::Poll,
                    report: Report::ReadFailed,
                    pause_ms: backoff(self.failures),
                }
            },
            (Stage::Decoding, Event::Decoded) => {
                self.stage = Stage::Forwarding;
                Step { action: Action::Forward, report: quiet, pause_ms: 0 }
            },
            (Stage::Decoding, Event::DecodeFailed) => {
                self.stage = Stage::Polling;
                Step { action: Action::Poll, report: Report::DecodeFailed, pause_ms: 0 }
            },
            (Stage::Forwarding, Event::Forwarded) => {
                self.stage = Stage::Polling;
                Step { action: Action::Poll, report: quiet, pause_ms: 0 }
            },
            (Stage::Forwarding, Event::ReceiverGone) => {
                self.stage = Stage::Polling;
                Step { action: Action::Poll, report: Report::ReceiverGone, pause_ms: 0 }
            },
            (_, _) => Step { action: self.pending(), report: Report::OutOfTurn, pause_ms: 0 },
        }
    }
}

/// The order in which a worker passes through its phases.
pub open spec fn phase_rank(phase: Phase) -> nat {
    match phase {
        Phase::Connecting => 0,
        Phase::Reading => 1,
        Phase::Stopped => 2,
    }
}

/// A worker that receives an empty frame does nothing with it: it sends
/// nothing, reports nothing, waits for nothing and goes on to the next look
/// at the stop flag, still reading.
pub proof fn lemma_empty_frame_is_skipped(state: WorkerState, text: String)
    requires
        state.stage == Stage::Receiving,
        text@.len() == 0,
    ensures
        advance(state, Event::Frame(text)).1 == (Step {
            action: Action::Poll,
            report: Report::Nothing,
            pause_ms: 0,
        }),
        advance(state, Event::Frame(text)).0.stage == Stage::Polling,
        phase_of(advance(state, Event::Frame(text)).0.stage) == Phase::Reading,
{
}

/// No event brings a stopped worker back, and it asks for nothing more.
pub proof fn lemma_stopped_is_final(state: WorkerState, event: Event)
    requires
        state.stage == Stage::Stopped,
    ensures
        advance(state, event).0 == state,
        advance(state, event).1.action == Action::Halt,
{
}

/// A worker never goes back to an earlier phase.
pub proof fn lemma_phase_never_goes_back(state: WorkerState, event: Event)
    ensures
        phase_rank(phase_of(state.stage)) <= phase_rank(phase_of(advance(state, event).0.stage)),
{
}

/// A worker stops only where it is told to, or where its handshake failed:
/// no frame, however malformed, and no consumer that went away ends it.
pub proof fn lemma_stops_only_on_demand(state: WorkerState, event: Event)
    requires
        state.stage != Stage::Stopped,
        advance(state, event).0.stage == Stage::Stopped,
    ensures
        (state.stage == Stage::Polling && event is StopRequested) || (state.stage
            == Stage::Connecting && event is ConnectFailed),
{
}

/// A message goes to the consumer only after the frame it came in was
/// decoded; unless the event is out of turn, the worker asks for it once.
pub proof fn lemma_forward_follows_decode(state: WorkerState, event: Event)
    requires
        advance(state, event).1.action == Action::Forward,
        advance(state, event).1.report != Report::OutOfTurn,
    ensures
        state.stage == Stage::Decoding,
        event is Decoded,
{
}

/// The pause after a failed read is never under the floor nor over the
/// ceiling, and it does not shrink while reads keep failing.
pub proof fn lemma_backoff_bounds(failures: nat)
    requires
        failures > 0,
    ensures
        BACKOFF_FLOOR_MS <= backoff_ms(failures) <= BACKOFF_CEILING_MS,
        backoff_ms(failures) <= backoff_ms(failures + 1),
    decreases failures,
{
    if failures > 1 {
        lemma_backoff_bounds((failures - 1) as nat);
    }
}

} // verus!
