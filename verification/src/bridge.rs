//! One session: a client and the serial device, bridged both ways.
//!
//! Two copies run side by side, one from the client to the device and one
//! from the device to the client. Each reads a chunk from its source, writes
//! all of that chunk to its sink, and only then reads again. The session is
//! over as soon as either copy is: when a source is at its end, or when a
//! read or a write fails. What the other copy still holds is dropped.
//!
//! The bridge does no I/O. It tells the driver what each copy waits for, and
//! the driver tells the bridge what the sockets did.

use vstd::prelude::*;
use crate::acceptor::SessionOutcome;

verus! {

/// One of the two copies, named by where its bytes go.
#[derive(Clone, Copy, Debug, PartialEq, Eq, Structural)]
pub enum Direction {
    /// From the client to the serial device.
    ToDevice,
    /// From the serial device to the client.
    ToClient,
}

/// What a copy waits for.
#[derive(Clone, Copy, Debug, PartialEq, Eq, Structural)]
pub enum Demand {
    /// A read from its source.
    Read,
    /// A write of its unsent bytes to its sink.
    Write,
    /// Nothing: the session is over.
    Nothing,
}

/// Whether the session goes on.
#[derive(Clone, Copy, Debug, PartialEq, Eq, Structural)]
pub enum Progress {
    Running,
    Ended(SessionOutcome),
}

/// What the driver reports of a copy.
#[derive(Debug, PartialEq, Eq)]
pub enum BridgeEvent {
    /// A read from the copy's source returned these bytes. No bytes: the
    /// source is at its end.
    Read(Direction, Vec<u8>),
    /// A write to the copy's sink took so many of the unsent bytes, from the
    /// front.
    Wrote(Direction, usize),
    /// A read or a write of the copy failed.
    Failed(Direction),
}

/// A [`BridgeEvent`] as a value of mathematics.
pub enum Signal {
    Read(Direction, Seq<u8>),
    Wrote(Direction, nat),
    Failed(Direction),
}

impl View for BridgeEvent {
    type V = Signal;

    open spec fn view(&self) -> Signal {
        match *self {
            BridgeEvent::Read(direction, chunk) => Signal::Read(direction, chunk@),
            BridgeEvent::Wrote(direction, count) => Signal::Wrote(direction, count as nat),
            BridgeEvent::Failed(direction) => Signal::Failed(direction),
        }
    }
}

/// The state of a session: for each copy the bytes read and not yet
/// written, and how the session ended once it has.
pub struct BridgeView {
    pub to_device: Seq<u8>,
    pub to_client: Seq<u8>,
    pub ended: Option<SessionOutcome>,
}

impl BridgeView {
    /// A session that has just begun.
    pub open spec fn fresh() -> BridgeView {
        BridgeView { to_device: Seq::empty(), to_client: Seq::empty(), ended: None }
    }

    /// The bytes that the copy has read and not yet written.
    pub open spec fn unsent(self, direction: Direction) -> Seq<u8> {
        match direction {
            Direction::ToDevice => self.to_device,
            Direction::ToClient => self.to_client,
        }
    }

    /// This state, with `bytes` the unsent bytes of the copy.
    pub open spec fn holding(self, direction: Direction, bytes: Seq<u8>) -> BridgeView {
        match direction {
            Direction::ToDevice => BridgeView { to_device: bytes, ..self },
            Direction::ToClient => BridgeView { to_client: bytes, ..self },
        }
    }

    /// This state, ended.
    pub open spec fn ending(self, outcome: SessionOutcome) -> BridgeView {
        BridgeView { ended: Some(outcome), ..self }
    }

    /// What the copy waits for.
    pub open spec fn demand(self, direction: Direction) -> Demand {
        if self.ended.is_some() {
            Demand::Nothing
        } else if self.unsent(direction).len() == 0 {
            Demand::Read
        } else {
            Demand::Write
        }
    }

    /// Whether the session goes on.
    pub open spec fn progress(self) -> Progress {
        match self.ended {
            Some(outcome) => Progress::Ended(outcome),
            None => Progress::Running,
        }
    }

    /// `signal` answers what the copy waits for: a read where it waits for
    /// a read, a write of no more than it holds where it waits for a write,
    /// a failure of either while the session runs.
    pub open spec fn takes(self, signal: Signal) -> bool {
        match signal {
            Signal::Read(direction, _) => self.demand(direction) == Demand::Read,
            Signal::Wrote(direction, count) => self.demand(direction) == Demand::Write && count
                <= self.unsent(direction).len(),
            Signal::Failed(_) => self.ended.is_none(),
        }
    }

    /// The state after `signal`; `None` where the signal answers nothing
    /// that the copy waited for.
    ///
    /// The bytes of a read are then the copy's unsent bytes, and where it
    /// brought none the source is at its end and so is the session. What a
    /// write took leaves from the front, and where it took nothing the sink
    /// takes no more and the session has failed. A failure ends the session.
    pub open spec fn advance(self, signal: Signal) -> Option<BridgeView> {
        if !self.takes(signal) {
            None
        } else {
            Some(
                match signal {
                    Signal::Read(direction, chunk) => if chunk.len() == 0 {
                        self.ending(SessionOutcome::Completed)
                    } else {
                        self.holding(direction, chunk)
                    },
                    Signal::Wrote(direction, count) => if count == 0 {
                        self.ending(SessionOutcome::Failed)
                    } else {
                        self.holding(direction, self.unsent(direction).skip(count as int))
                    },
                    Signal::Failed(_) => self.ending(SessionOutcome::Failed),
                },
            )
        }
    }
}

/// The bridge of one session.
#[derive(Debug)]
pub struct Bridge {
    to_device: Vec<u8>,
    to_client: Vec<u8>,
    ended: Option<SessionOutcome>,
}

impl View for Bridge {
    type V = BridgeView;

    closed spec fn view(&self) -> BridgeView {
        BridgeView { to_device: self.to_device@, to_client: self.to_client@, ended: self.ended }
    }
}

impl Bridge {
    /// The bridge of a session that has just begun: both copies wait for a
    /// read.
    pub fn new() -> (bridge: Bridge)
        ensures
            bridge@ == BridgeView::fresh(),
    {
        Bridge { to_device: Vec::new(), to_client: Vec::new(), ended: None }
    }

    /// The bytes that the copy has read and not yet written, in order.
    pub fn unsent(&self, direction: Direction) -> (bytes: &Vec<u8>)
        ensures
            bytes@ == self@.unsent(direction),
    {
        match direction {
            Direction::ToDevice => &self.to_device,
            Direction::ToClient => &self.to_client,
        }
    }

    /// What the copy waits for.
    pub fn demand(&self, direction: Direction) -> (demand: Demand)
        ensures
            demand == self@.demand(direction),
    {
        if self.ended.is_some() {
            Demand::Nothing
        } else if self.unsent(direction).len() == 0 {
            Demand::Read
        } else {
            Demand::Write
        }
    }

    /// Whether the session goes on, and how it ended if it does not.
    pub fn progress(&self) -> (progress: Progress)
        ensures
            progress == self@.progress(),
    {
        match self.ended {
            Some(outcome) => Progress::Ended(outcome),
            None => Progress::Running,
        }
    }

    /// Takes the driver's report. A report that answers nothing the copy
    /// waited for is refused and changes nothing.
    pub fn handle(&mut self, event: BridgeEvent) -> (progress: Option<Progress>)
        ensures
            progress.is_some() <==> old(self)@.takes(event@),
            match old(self)@.advance(event@) {
                Some(after) => final(self)@ == after && progress == Some(after.progress()),
                None => final(self)@ == old(self)@ && progress.is_none(),
            },
    {
        match event {
            BridgeEvent::Read(direction, chunk) => {
                if self.demand(direction) != Demand::Read {
                    return None;
                }
                if chunk.len() == 0 {
                    self.ended = Some(SessionOutcome::Completed);
                } else {
                    self.hold(direction, chunk);
                }
            },
            BridgeEvent::Wrote(direction, count) => {
                if self.demand(direction) != Demand::Write || count > self.unsent(direction).len() {
                    return None;
                }
                if count == 0 {
                    self.ended = Some(SessionOutcome::Failed);
                } else {
                    let rest = match direction {
                        Direction::ToDevice => self.to_device.split_off(count),
                        Direction::ToClient => self.to_client.split_off(count),
                    };
                    self.hold(direction, rest);
                }
            },
            BridgeEvent::Failed(_) => {
                if self.ended.is_some() {
                    return None;
                }
                self.ended = Some(SessionOutcome::Failed);
            },
        }
        Some(self.progress())
    }

    fn hold(&mut self, direction: Direction, bytes: Vec<u8>)
        ensures
            final(self).ended == old(self).ended,
            final(self).to_device@ == if direction == Direction::ToDevice {
                bytes@
            } else {
                old(self).to_device@
            },
            final(self).to_client@ == if direction == Direction::ToClient {
                bytes@
            } else {
                old(self).to_client@
            },
    {
        match direction {
            Direction::ToDevice => { self.to_device = bytes; },
            Direction::ToClient => { self.to_client = bytes; },
        }
    }
}

} // verus!
