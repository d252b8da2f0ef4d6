//! The motor commands as procedures that a transport loop carries out.
//!
//! A procedure never touches the line. It names the next action (write a
//! frame, pause, read a response), takes the event that reports how the
//! action went, and moves on. The caller that owns the line performs each
//! action and hands back its event until the procedure is finished.

use vstd::prelude::*;
use crate::error::{DriverError, TransportFault};
use crate::frame::{CommandKind, MotorCommandFrame, FRAME_LEN};

verus! {

/// How often the identity frame is written: the motor accepts the assignment
/// only after it has seen the frame five times.
pub const ASSIGNMENT_REPEATS: u8 = 5;

/// The pause after each identity frame, in milliseconds.
pub const ASSIGNMENT_PAUSE_MS: u64 = 50;

/// What the owner of the line does next.
#[derive(Clone, Copy, Debug, PartialEq, Eq)]
pub enum Action {
    /// Write all ten bytes of the frame.
    Transmit(MotorCommandFrame),
    /// Wait for at least this many milliseconds.
    Pause(u64),
    /// Read exactly this many bytes, within the timeout of the line.
    Receive(usize),
    /// Nothing: the procedure is finished.
    Finish,
}

/// How an action went.
#[derive(Clone, Debug, PartialEq, Eq)]
pub enum Event {
    /// The frame was written whole.
    Transmitted,
    /// The frame could not be written.
    TransmitFailed(TransportFault),
    /// The pause is over.
    Paused,
    /// These bytes were read.
    Received(Vec<u8>),
    /// The bytes could not be read.
    ReceiveFailed(TransportFault),
}

/// Where a procedure stands.
#[derive(Clone, Debug, PartialEq, Eq)]
pub enum Outcome {
    /// Actions are still to be carried out.
    Pending,
    /// Every action was carried out; the command has no response.
    Done,
    /// The ten bytes that the motor answered with.
    Response(Vec<u8>),
    /// The procedure was given up with this error.
    Failed(DriverError),
}

/// The number of actions that a command consists of.
pub open spec fn plan_len(kind: CommandKind) -> nat {
    match kind {
        CommandKind::AssignIdentity => 2 * ASSIGNMENT_REPEATS as nat,
        CommandKind::SwitchMode => 1,
        CommandKind::QueryIdentity => 2,
    }
}

/// The action at place `i` of a command: an identity assignment writes its
/// frame and pauses, in turn; a mode switch writes its frame once; a query
/// writes its frame and then reads a response of ten bytes.
pub open spec fn planned_action(kind: CommandKind, frame: MotorCommandFrame, i: nat) -> Action {
    match kind {
        CommandKind::AssignIdentity => if i % 2 == 0 {
            Action::Transmit(frame)
        } else {
            Action::Pause(ASSIGNMENT_PAUSE_MS)
        },
        CommandKind::SwitchMode => Action::Transmit(frame),
        CommandKind::QueryIdentity => if i == 0 {
            Action::Transmit(frame)
        } else {
            Action::Receive(FRAME_LEN)
        },
    }
}

/// Whether `event` reports on `action`.
pub open spec fn answers(action: Action, event: Event) -> bool {
    match action {
        Action::Transmit(_) => event is Transmitted || event is TransmitFailed,
        Action::Pause(_) => event is Paused,
        Action::Receive(_) => event is Received || event is ReceiveFailed,
        Action::Finish => false,
    }
}

/// The state of a procedure, as plain values.
pub struct ProcedureState {
    /// The command.
    pub kind: CommandKind,
    /// The frame that the command writes.
    pub frame: MotorCommandFrame,
    /// How many actions have been carried out.
    pub position: nat,
    /// How many of the writes so far have failed.
    pub failed_transmissions: nat,
    /// Where the procedure stands.
    pub outcome: Outcome,
}

impl ProcedureState {
    /// The state before the first action.
    pub open spec fn start(kind: CommandKind, frame: MotorCommandFrame) -> ProcedureState {
        ProcedureState {
            kind,
            frame,
            position: 0,
            failed_transmissions: 0,
            outcome: Outcome::Pending,
        }
    }

    /// The states that a procedure can be in.
    pub open spec fn wf(self) -> bool {
        &&& self.position <= plan_len(self.kind)
        &&& self.failed_transmissions <= self.position
        &&& match self.outcome {
            Outcome::Pending => self.position < plan_len(self.kind),
            Outcome::Done => self.position == plan_len(self.kind) && !(self.kind
                is QueryIdentity),
            Outcome::Response(bytes) => self.position == plan_len(self.kind) && self.kind
                is QueryIdentity && bytes@.len() == FRAME_LEN,
            Outcome::Failed(_) => self.position < plan_len(self.kind) && self.kind
                is QueryIdentity,
        }
    }

    /// Whether nothing is left to do.
    pub open spec fn finished(self) -> bool {
        !(self.outcome is Pending)
    }

    /// The action to carry out next.
    pub open spec fn next_action(self) -> Action {
        if self.finished() {
            Action::Finish
        } else {
            planned_action(self.kind, self.frame, self.position)
        }
    }

    /// The state after one more action was carried out without a fatal
    /// error. A command without a response is done after its last action.
    pub open spec fn stepped(self, failed: bool) -> ProcedureState {
        ProcedureState {
            position: self.position + 1,
            failed_transmissions: if failed {
                self.failed_transmissions + 1
            } else {
                self.failed_transmissions
            },
            outcome: if self.position + 1 == plan_len(self.kind) {
                Outcome::Done
            } else {
                Outcome::Pending
            },
            ..self
        }
    }

    /// The state after a fatal error.
    pub open spec fn given_up(self, error: DriverError) -> ProcedureState {
        ProcedureState { outcome: Outcome::Failed(error), ..self }
    }

    /// The state after `event`.
    ///
    /// An event that does not report on the pending action changes nothing.
    /// A failed write is fatal to a query and to nothing else: the other
    /// commands have no acknowledgment either way, so they go on. A failed
    /// read is fatal, and so is a response of another length than ten bytes.
    pub open spec fn after(self, event: Event) -> ProcedureState {
        if !answers(self.next_action(), event) {
            self
        } else {
            match event {
                Event::Transmitted => self.stepped(false),
                Event::Paused => self.stepped(false),
                Event::TransmitFailed(fault) => if self.kind is QueryIdentity {
                    self.given_up(DriverError::spec_send_failure(fault))
                } else {
                    self.stepped(true)
                },
                Event::Received(bytes) => if bytes@.len() == FRAME_LEN {
                    ProcedureState {
                        position: self.position + 1,
                        outcome: Outcome::Response(bytes),
                        ..self
                    }
                } else {
                    self.given_up(DriverError::IoFailure)
                },
                Event::ReceiveFailed(fault) => self.given_up(
                    DriverError::spec_receive_failure(fault),
                ),
            }
        }
    }

    /// What the caller is told about `event`: nothing when the action went
    /// well, else the error. An event that does not report on the pending
    /// action is an invalid argument.
    pub open spec fn report(self, event: Event) -> Option<DriverError> {
        if !answers(self.next_action(), event) {
            Some(DriverError::InvalidArgument)
        } else {
            match event {
                Event::Transmitted => None,
                Event::Paused => None,
                Event::TransmitFailed(fault) => Some(DriverError::spec_send_failure(fault)),
                Event::Received(bytes) => if bytes@.len() == FRAME_LEN {
                    None
                } else {
                    Some(DriverError::IoFailure)
                },
                Event::ReceiveFailed(fault) => Some(DriverError::spec_receive_failure(fault)),
            }
        }
    }

    /// The state after each of `events`, in their order.
    pub open spec fn after_all(self, events: Seq<Event>) -> ProcedureState
        decreases events.len(),
    {
        if events.len() == 0 {
            self
        } else {
            self.after_all(events.drop_last()).after(events.last())
        }
    }
}

/// A command in progress.
#[derive(Debug, PartialEq, Eq)]
pub struct Procedure {
    kind: CommandKind,
    frame: MotorCommandFrame,
    position: u8,
    failed_transmissions: u8,
    outcome: Outcome,
}

impl View for Procedure {
    type V = ProcedureState;

    closed spec fn view(&self) -> ProcedureState {
        ProcedureState {
            kind: self.kind,
            frame: self.frame,
            position: self.position as nat,
            failed_transmissions: self.failed_transmissions as nat,
            outcome: self.outcome,
        }
    }
}

impl Procedure {
    #[verifier::type_invariant]
    closed spec fn inv(self) -> bool {
        self@.wf()
    }

    /// A procedure for `kind` that writes `frame`, before its first action.
    pub fn start(kind: CommandKind, frame: MotorCommandFrame) -> (procedure: Procedure)
        ensures
            procedure@ == ProcedureState::start(kind, frame),
    {
        Procedure { kind, frame, position: 0, failed_transmissions: 0, outcome: Outcome::Pending }
    }

    /// The command.
    pub fn kind(&self) -> (kind: CommandKind)
        ensures
            kind == self@.kind,
    {
        self.kind
    }

    /// The frame that the command writes.
    pub fn frame(&self) -> (frame: MotorCommandFrame)
        ensures
            frame == self@.frame,
    {
        self.frame
    }

    /// How many of the writes so far have failed.
    pub fn failed_transmissions(&self) -> (count: u8)
        ensures
            count == self@.failed_transmissions,
    {
        self.failed_transmissions
    }

    /// Where the procedure stands.
    pub fn outcome(&self) -> (outcome: &Outcome)
        ensures
            *outcome == self@.outcome,
            self@.wf(),
    {
        proof {
            use_type_invariant(self);
        }
        &self.outcome
    }

    /// Ends the procedure and hands out where it stood.
    pub fn into_outcome(self) -> (outcome: Outcome)
        ensures
            outcome == self@.outcome,
            self@.wf(),
    {
        proof {
            use_type_invariant(&self);
        }
        self.outcome
    }

    /// The response of the motor as a buffer of ten bytes, once a query has
    /// read it.
    pub fn response(&self) -> (response: Option<[u8; 10]>)
        ensures
            match self@.outcome {
                Outcome::Response(bytes) => response is Some && response->Some_0@ == bytes@,
                _ => response is None,
            },
    {
        proof {
            use_type_invariant(self);
        }
        match &self.outcome {
            Outcome::Response(bytes) => {
                let buffer: [u8; 10] = [
                    bytes[0],
                    bytes[1],
                    bytes[2],
                    bytes[3],
                    bytes[4],
                    bytes[5],
                    bytes[6],
                    bytes[7],
                    bytes[8],
                    bytes[9],
                ];
                assert(buffer@ =~= bytes@);
                Some(buffer)
            },
            _ => None,
        }
    }

    /// Whether nothing is left to do.
    pub fn is_finished(&self) -> (finished: bool)
        ensures
            finished == self@.finished(),
    {
        match &self.outcome {
            Outcome::Pending => false,
            _ => true,
        }
    }

    /// The action to carry out next.
    pub fn next_action(&self) -> (action: Action)
        ensures
            action == self@.next_action(),
    {
        proof {
            use_type_invariant(self);
        }
        if self.is_finished() {
            return Action::Finish;
        }
        match self.kind {
            CommandKind::AssignIdentity => if self.position % 2 == 0 {
                Action::Transmit(self.frame)
            } else {
                Action::Pause(ASSIGNMENT_PAUSE_MS)
            },
            CommandKind::SwitchMode => Action::Transmit(self.frame),
            CommandKind::QueryIdentity => if self.position == 0 {
                Action::Transmit(self.frame)
            } else {
                Action::Receive(FRAME_LEN)
            },
        }
    }

    /// Takes the event that reports on the pending action and moves on.
    /// Returns the error to report, if the event brought one.
    pub fn advance(&mut self, event: Event) -> (report: Option<DriverError>)
        ensures
            final(self)@ == old(self)@.after(event),
            report == old(self)@.report(event),
            final(self)@.wf(),
    {
        proof {
            use_type_invariant(&*self);
        }
        let action = self.next_action();
        match (action, event) {
            (Action::Transmit(_), Event::Transmitted) => {
                self.step(false);
                None
            },
            (Action::Pause(_), Event::Paused) => {
                self.step(false);
                None
            },
            (Action::Transmit(_), Event::TransmitFailed(fault)) => {
                let error = DriverError::send_failure(fault);
                match self.kind {
                    CommandKind::QueryIdentity => self.give_up(error),
                    _ => self.step(true),
                }
                Some(error)
            },
            (Action::Receive(_), Event::Received(bytes)) => {
                if bytes.len() == FRAME_LEN {
                    *self = Procedure {
                        kind: self.kind,
                        frame: self.frame,
                        position: self.position + 1,
                        failed_transmissions: self.failed_transmissions,
                        outcome: Outcome::Response(bytes),
                    };
                    None
                } else {
                    self.give_up(DriverError::IoFailure);
                    Some(DriverError::IoFailure)
                }
            },
            (Action::Receive(_), Event::ReceiveFailed(fault)) => {
                let error = DriverError::receive_failure(fault);
                self.give_up(error);
                Some(error)
            },
            _ => Some(DriverError::InvalidArgument),
        }
    }

    fn step(&mut self, failed: bool)
        requires
            old(self)@.outcome is Pending,
            !(old(self)@.kind is QueryIdentity) || old(self)@.position == 0,
        ensures
            final(self)@ == old(self)@.stepped(failed),
    {
        proof {
            use_type_invariant(&*self);
        }
        let position: u8 = self.position + 1;
        let last: bool = match self.kind {
            CommandKind::AssignIdentity => position == 2 * ASSIGNMENT_REPEATS,
            CommandKind::SwitchMode => true,
            CommandKind::QueryIdentity => false,
        };
        *self = Procedure {
            kind: self.kind,
            frame: self.frame,
            position,
            failed_transmissions: if failed {
                self.failed_transmissions + 1
            } else {
                self.failed_transmissions
            },
            outcome: if last {
                Outcome::Done
            } else {
                Outcome::Pending
            },
        };
    }

    fn give_up(&mut self, error: DriverError)
        requires
            old(self)@.outcome is Pending,
            old(self)@.kind is QueryIdentity,
        ensures
            final(self)@ == old(self)@.given_up(error),
    {
        proof {
            use_type_invariant(&*self);
        }
        *self = Procedure {
            kind: self.kind,
            frame: self.frame,
            position: self.position,
            failed_transmissions: self.failed_transmissions,
            outcome: Outcome::Failed(error),
        };
    }
}

/// How many of `events` report a failed write.
pub open spec fn failed_writes(events: Seq<Event>) -> nat
    decreases events.len(),
{
    if events.len() == 0 {
        0
    } else if events.last() is TransmitFailed {
        failed_writes(events.drop_last()) + 1
    } else {
        failed_writes(events.drop_last())
    }
}

/// Whether each of `events` reports on the action at its place in the
/// command `kind`.
pub open spec fn follow_plan(kind: CommandKind, frame: MotorCommandFrame, events: Seq<Event>) -> bool {
    forall|i: int|
        0 <= i < events.len() ==> answers(
            planned_action(kind, frame, i as nat),
            #[trigger] events[i],
        )
}

/// An event leads from a state that a procedure can be in to another such
/// state, and changes neither the command nor its frame.
pub proof fn after_keeps_wf(state: ProcedureState, event: Event)
    requires
        state.wf(),
    ensures
        state.after(event).wf(),
        state.after(event).kind == state.kind,
        state.after(event).frame == state.frame,
{
}

/// A finished procedure stays as it is: every further event is refused as
/// an invalid argument and changes nothing.
pub proof fn finished_is_final(state: ProcedureState, event: Event)
    requires
        state.finished(),
    ensures
        state.after(event) == state,
        state.report(event) == Some(DriverError::InvalidArgument),
{
}

/// An event that reports on the pending action either finishes the
/// procedure or moves it on by exactly one action.
pub proof fn accepted_event_makes_progress(state: ProcedureState, event: Event)
    requires
        state.wf(),
        answers(state.next_action(), event),
    ensures
        state.after(event).finished() || state.after(event).position == state.position + 1,
        state.after(event).position <= plan_len(state.kind),
{
}

/// A command without a response is never given up. Whatever its writes
/// report, it carries out its actions one by one in their order, counts the
/// writes that failed, and is done after the last action and not before.
pub proof fn unacknowledged_command_runs_to_the_end(
    kind: CommandKind,
    frame: MotorCommandFrame,
    events: Seq<Event>,
)
    requires
        !(kind is QueryIdentity),
        events.len() <= plan_len(kind),
        follow_plan(kind, frame, events),
    ensures
        ProcedureState::start(kind, frame).after_all(events) == (ProcedureState {
            kind,
            frame,
            position: events.len(),
            failed_transmissions: failed_writes(events),
            outcome: if events.len() == plan_len(kind) {
                Outcome::Done
            } else {
                Outcome::Pending
            },
        }),
        failed_writes(events) <= events.len(),
        events.len() < plan_len(kind) ==> ProcedureState::start(kind, frame).after_all(
            events,
        ).next_action() == planned_action(kind, frame, events.len()),
    decreases events.len(),
{
    if events.len() > 0 {
        let earlier = events.drop_last();
        assert forall|i: int| 0 <= i < earlier.len() implies answers(
            planned_action(kind, frame, i as nat),
            #[trigger] earlier[i],
        ) by {
            assert(earlier[i] == events[i]);
        }
        unacknowledged_command_runs_to_the_end(kind, frame, earlier);
        assert(answers(planned_action(kind, frame, earlier.len()), events[events.len() - 1]));
    }
}

/// An identity assignment writes its frame exactly five times and pauses
/// for fifty milliseconds after each write, whether or not a write reports
/// an error: before the event at an even place the frame is to be written,
/// before the event at an odd place the pause is due, and after ten events
/// nothing is left.
pub proof fn assignment_writes_five_frames(frame: MotorCommandFrame, events: Seq<Event>, k: int)
    requires
        events.len() == 2 * ASSIGNMENT_REPEATS,
        follow_plan(CommandKind::AssignIdentity, frame, events),
        0 <= k < ASSIGNMENT_REPEATS,
    ensures
        ProcedureState::start(CommandKind::AssignIdentity, frame).after_all(
            events.take(2 * k),
        ).next_action() == Action::Transmit(frame),
        ProcedureState::start(CommandKind::AssignIdentity, frame).after_all(
            events.take(2 * k + 1),
        ).next_action() == Action::Pause(ASSIGNMENT_PAUSE_MS),
        ProcedureState::start(CommandKind::AssignIdentity, frame).after_all(events).next_action()
            == Action::Finish,
        ProcedureState::start(CommandKind::AssignIdentity, frame).after_all(events).outcome
            == Outcome::Done,
{
    let kind = CommandKind::AssignIdentity;
    let before_write = events.take(2 * k);
    let before_pause = events.take(2 * k + 1);
    assert forall|i: int| 0 <= i < before_write.len() implies answers(
        planned_action(kind, frame, i as nat),
        #[trigger] before_write[i],
    ) by {
        assert(before_write[i] == events[i]);
    }
    assert forall|i: int| 0 <= i < before_pause.len() implies answers(
        planned_action(kind, frame, i as nat),
        #[trigger] before_pause[i],
    ) by {
        assert(before_pause[i] == events[i]);
    }
    unacknowledged_command_runs_to_the_end(kind, frame, before_write);
    unacknowledged_command_runs_to_the_end(kind, frame, before_pause);
    unacknowledged_command_runs_to_the_end(kind, frame, events);
}

/// What becomes of a query. If the write fails, the query is given up with
/// a transport failure and nothing is read. Else the response is read: ten
/// bytes are the answer, a missed deadline gives a timeout, and every other
/// failure, a response of another length among them, a transport failure.
pub proof fn query_outcome(frame: MotorCommandFrame, sent: Event, received: Event)
    requires
        answers(Action::Transmit(frame), sent),
        answers(Action::Receive(FRAME_LEN), received),
    ensures
        ({
            let written = ProcedureState::start(CommandKind::QueryIdentity, frame).after(sent);
            let read = written.after(received);
            match sent {
                Event::TransmitFailed(_) => written.outcome == Outcome::Failed(
                    DriverError::IoFailure,
                ) && read == written,
                _ => written.next_action() == Action::Receive(FRAME_LEN) && read.outcome
                    == match received {
                    Event::Received(bytes) => if bytes@.len() == FRAME_LEN {
                        Outcome::Response(bytes)
                    } else {
                        Outcome::Failed(DriverError::IoFailure)
                    },
                    Event::ReceiveFailed(TransportFault::TimedOut) => Outcome::Failed(
                        DriverError::Timeout,
                    ),
                    _ => Outcome::Failed(DriverError::IoFailure),
                },
            }
        }),
{
}

} // verus!
