//! The serving loop as a machine.
//!
//! The server listens, takes one client, opens the serial device for that
//! client alone, bridges the two until the session ends, and listens again.
//! Here the loop is a function from the phase it is in and the event that
//! the driver reports to the next phase and the action that the driver is to
//! perform. All waiting is the driver's.

use vstd::prelude::*;
use crate::recovery::{recovery_of, classify_with, AcceptFailure, ExhaustionCodes, Recovery, BACKOFF_MILLIS};

verus! {

/// Where the loop stands.
#[derive(Clone, Copy, Debug, PartialEq, Eq, Structural)]
pub enum Phase {
    /// Waiting for a client; nothing is held but the listening socket.
    Listening,
    /// Resting after the descriptor table was found full.
    BackingOff,
    /// A client is held and the device is being opened for it.
    Opening,
    /// A session runs: one client paired with one open device.
    Bridging,
    /// `accept` failed beyond recovery; the loop has ended.
    Stopped,
}

/// How a session ended.
#[derive(Clone, Copy, Debug, PartialEq, Eq, Structural)]
pub enum SessionOutcome {
    /// One direction came to its end.
    Completed,
    /// A read or a write failed.
    Failed,
}

/// What the driver reports.
#[derive(Clone, Copy, Debug, PartialEq, Eq)]
pub enum Event {
    /// `accept` returned a client.
    Accepted,
    /// `accept` returned an error.
    AcceptFailed(AcceptFailure),
    /// The rest is over.
    BackoffElapsed,
    /// The device is open.
    DeviceOpened,
    /// The device could not be opened, for whatever reason.
    DeviceFailed,
    /// The bridge returned; client and device are closed.
    SessionEnded(SessionOutcome),
}

/// What the driver is to do next.
#[derive(Clone, Copy, Debug, PartialEq, Eq, Structural)]
pub enum Action {
    /// Announce the listening address and wait for a client.
    Accept,
    /// Sleep for so many milliseconds.
    Sleep(u64),
    /// Open the serial device for the client just accepted.
    OpenDevice,
    /// Bridge the client and the device.
    RunBridge,
    /// Return the `accept` error to the caller.
    Exit,
}

/// What the operator is told about a transition.
#[derive(Clone, Copy, Debug, PartialEq, Eq, Structural)]
pub enum Notice {
    /// Nothing.
    Silent,
    /// A client connected.
    ClientAccepted,
    /// The device could not be opened; the client is dropped.
    DeviceUnavailable,
    /// The session came to its end.
    SessionDone,
    /// The session ended on an error.
    SessionFailed,
}

/// How loud a notice is.
#[derive(Clone, Copy, Debug, PartialEq, Eq, Structural)]
pub enum Severity {
    Info,
    Warning,
}

/// One turn of the loop: the phase entered, what to tell the operator, and
/// what to do.
#[derive(Clone, Copy, Debug, PartialEq, Eq, Structural)]
pub struct Transition {
    pub phase: Phase,
    pub notice: Notice,
    pub action: Action,
}

/// The action that the driver performs while the loop is in `phase`.
pub open spec fn action_of(phase: Phase) -> Action {
    match phase {
        Phase::Listening => Action::Accept,
        Phase::BackingOff => Action::Sleep(BACKOFF_MILLIS),
        Phase::Opening => Action::OpenDevice,
        Phase::Bridging => Action::RunBridge,
        Phase::Stopped => Action::Exit,
    }
}

/// The severity with which a notice is logged, if it is logged at all.
pub open spec fn severity_of(notice: Notice) -> Option<Severity> {
    match notice {
        Notice::Silent => None,
        Notice::ClientAccepted => Some(Severity::Info),
        Notice::DeviceUnavailable => Some(Severity::Warning),
        Notice::SessionDone => Some(Severity::Info),
        Notice::SessionFailed => Some(Severity::Warning),
    }
}

/// A turn into `phase` that tells the operator `notice`.
pub open spec fn turn(phase: Phase, notice: Notice) -> Transition {
    Transition { phase, notice, action: action_of(phase) }
}

/// `event` is a report that the driver can make after performing `action`:
/// an accept brings a client or an error, a sleep ends, an open succeeds or
/// fails, a bridge returns, and nothing follows an exit.
pub open spec fn answers(action: Action, event: Event) -> bool {
    match action {
        Action::Accept => event is Accepted || event is AcceptFailed,
        Action::Sleep(_) => event is BackoffElapsed,
        Action::OpenDevice => event is DeviceOpened || event is DeviceFailed,
        Action::RunBridge => event is SessionEnded,
        Action::Exit => false,
    }
}

/// The loop's transition relation. `None` where `event` cannot follow the
/// action of `phase`.
pub open spec fn next(phase: Phase, event: Event, codes: ExhaustionCodes) -> Option<Transition> {
    match (phase, event) {
        (Phase::Listening, Event::Accepted) => Some(turn(Phase::Opening, Notice::ClientAccepted)),
        (Phase::Listening, Event::AcceptFailed(failure)) => Some(
            match recovery_of(failure, codes) {
                Recovery::Retry => turn(Phase::Listening, Notice::Silent),
                Recovery::Backoff => turn(Phase::BackingOff, Notice::Silent),
                Recovery::Propagate => turn(Phase::Stopped, Notice::Silent),
            },
        ),
        (Phase::BackingOff, Event::BackoffElapsed) => Some(turn(Phase::Listening, Notice::Silent)),
        (Phase::Opening, Event::DeviceOpened) => Some(turn(Phase::Bridging, Notice::Silent)),
        (Phase::Opening, Event::DeviceFailed) => Some(
            turn(Phase::Listening, Notice::DeviceUnavailable),
        ),
        (Phase::Bridging, Event::SessionEnded(SessionOutcome::Completed)) => Some(
            turn(Phase::Listening, Notice::SessionDone),
        ),
        (Phase::Bridging, Event::SessionEnded(SessionOutcome::Failed)) => Some(
            turn(Phase::Listening, Notice::SessionFailed),
        ),
        _ => None,
    }
}

impl Phase {
    /// The action that the driver performs in this phase.
    pub fn action(self) -> (action: Action)
        ensures
            action == action_of(self),
    {
        match self {
            Phase::Listening => Action::Accept,
            Phase::BackingOff => Action::Sleep(BACKOFF_MILLIS),
            Phase::Opening => Action::OpenDevice,
            Phase::Bridging => Action::RunBridge,
            Phase::Stopped => Action::Exit,
        }
    }
}

impl Notice {
    /// The severity with which this notice is logged, if at all.
    pub fn severity(self) -> (severity: Option<Severity>)
        ensures
            severity == severity_of(self),
    {
        match self {
            Notice::Silent => None,
            Notice::ClientAccepted => Some(Severity::Info),
            Notice::DeviceUnavailable => Some(Severity::Warning),
            Notice::SessionDone => Some(Severity::Info),
            Notice::SessionFailed => Some(Severity::Warning),
        }
    }
}

/// One turn of the loop from `phase` on `event`, with the platform's error
/// numbers in `codes`. `None` where the event cannot follow the phase's
/// action: the driver has a fault.
pub fn step(phase: Phase, event: Event, codes: ExhaustionCodes) -> (turned: Option<Transition>)
    ensures
        turned == next(phase, event, codes),
        turned.is_some() <==> answers(action_of(phase), event),
{
    let entered: (Phase, Notice) = match phase {
        Phase::Listening => match event {
            Event::Accepted => (Phase::Opening, Notice::ClientAccepted),
            Event::AcceptFailed(failure) => match classify_with(failure, codes) {
                Recovery::Retry => (Phase::Listening, Notice::Silent),
                Recovery::Backoff => (Phase::BackingOff, Notice::Silent),
                Recovery::Propagate => (Phase::Stopped, Notice::Silent),
            },
            _ => { return None; },
        },
        Phase::BackingOff => match event {
            Event::BackoffElapsed => (Phase::Listening, Notice::Silent),
            _ => { return None; },
        },
        Phase::Opening => match event {
            Event::DeviceOpened => (Phase::Bridging, Notice::Silent),
            Event::DeviceFailed => (Phase::Listening, Notice::DeviceUnavailable),
            _ => { return None; },
        },
        Phase::Bridging => match event {
            Event::SessionEnded(SessionOutcome::Completed) => (Phase::Listening, Notice::SessionDone),
            Event::SessionEnded(SessionOutcome::Failed) => (Phase::Listening, Notice::SessionFailed),
            _ => { return None; },
        },
        Phase::Stopped => { return None; },
    };
    Some(Transition { phase: entered.0, notice: entered.1, action: entered.0.action() })
}

/// The loop of one server: its phase, and the error numbers by which its
/// platform reports a full descriptor table.
#[derive(Clone, Copy, Debug)]
pub struct Acceptor {
    phase: Phase,
    codes: ExhaustionCodes,
}

impl Acceptor {
    /// The phase the loop is in.
    pub closed spec fn spec_phase(&self) -> Phase {
        self.phase
    }

    /// The error numbers the loop classifies by.
    pub closed spec fn spec_codes(&self) -> ExhaustionCodes {
        self.codes
    }

    /// A loop about to listen, on the platform that the crate was built for.
    pub fn new() -> (acceptor: Acceptor)
        ensures
            acceptor.spec_phase() == Phase::Listening,
    {
        Acceptor { phase: Phase::Listening, codes: ExhaustionCodes::native() }
    }

    /// A loop about to listen, which takes `codes` for the error numbers
    /// of a full descriptor table.
    pub fn with_codes(codes: ExhaustionCodes) -> (acceptor: Acceptor)
        ensures
            acceptor.spec_phase() == Phase::Listening,
            acceptor.spec_codes() == codes,
    {
        Acceptor { phase: Phase::Listening, codes }
    }

    #[verifier::when_used_as_spec(spec_phase)]
    pub fn phase(&self) -> (phase: Phase)
        ensures
            phase == self.spec_phase(),
    {
        self.phase
    }

    #[verifier::when_used_as_spec(spec_codes)]
    pub fn codes(&self) -> (codes: ExhaustionCodes)
        ensures
            codes == self.spec_codes(),
    {
        self.codes
    }

    /// The action that the driver is to perform now.
    pub fn action(&self) -> (action: Action)
        ensures
            action == action_of(self.spec_phase()),
    {
        self.phase.action()
    }

    /// Takes the driver's report and moves on. An event that cannot follow
    /// the current action is refused and changes nothing.
    pub fn step(&mut self, event: Event) -> (turned: Option<Transition>)
        ensures
            turned == next(old(self).spec_phase(), event, old(self).spec_codes()),
            turned.is_some() <==> answers(action_of(old(self).spec_phase()), event),
            final(self).spec_codes() == old(self).spec_codes(),
            final(self).spec_phase() == match turned {
                Some(transition) => transition.phase,
                None => old(self).spec_phase(),
            },
    {
        let turned = step(self.phase, event, self.codes);
        if let Some(transition) = turned {
            self.phase = transition.phase;
        }
        turned
    }
}

} // verus!
