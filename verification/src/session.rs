//! The relay session.
//!
//! One session pairs exactly one inbound connection with exactly one outbound
//! connection for the lifetime of one client interaction: it is created when
//! an inbound connection is accepted, opens the outbound connection as part
//! of establishment, and on success starts the two forwarding loops as
//! independent concurrent tasks. There is no cross-direction teardown: each
//! direction reaches its closed state on its own, and one loop's exit leaves
//! the sibling exactly as it was — a deliberate gap of the current design,
//! stated explicitly in the contracts here rather than papered over.

use vstd::prelude::*;

use crate::pump::ExitCause;

verus! {

/// The outbound connection could not be established. Fatal to the session
/// alone: the session never starts relaying, and the caller reports the error
/// without bringing down the rest of the serving process.
#[derive(Debug, PartialEq, Eq)]
pub struct ConnectionError {
    /// The transport's own description of the failure, as handed in by the
    /// caller.
    pub detail: String,
}

/// What the outbound connector reported: an open connection, or a failure
/// with the transport's description.
#[derive(Debug)]
pub enum ConnectOutcome {
    Connected,
    Failed(String),
}

/// The two unidirectional pumps of one session.
#[derive(Clone, Copy, Debug, PartialEq, Eq, Structural)]
pub enum Direction {
    /// Inbound read half feeding the outbound write half.
    InboundToOutbound,
    /// Outbound read half feeding the inbound write half.
    OutboundToInbound,
}

impl Direction {
    /// The sibling direction of the same session.
    pub open spec fn opposite(self) -> Direction {
        match self {
            Direction::InboundToOutbound => Direction::OutboundToInbound,
            Direction::OutboundToInbound => Direction::InboundToOutbound,
        }
    }

    /// The sibling direction of the same session.
    pub fn other(self) -> (r: Direction)
        ensures
            r == self.opposite(),
    {
        match self {
            Direction::InboundToOutbound => Direction::OutboundToInbound,
            Direction::OutboundToInbound => Direction::InboundToOutbound,
        }
    }
}

/// One forwarding loop's lifecycle state within its session.
#[derive(Clone, Copy, Debug, PartialEq, Eq, Structural)]
pub enum LoopState {
    /// The session has not started this loop (and never will, if it aborts).
    NotStarted,
    /// The loop owns its halves and is pumping.
    Running,
    /// The loop exited for the given cause and released its halves.
    Closed(ExitCause),
}

/// The session's phase: establishing the outbound connection, relaying, or
/// aborted because the outbound connection could not be opened.
#[derive(Clone, Copy, Debug, PartialEq, Eq, Structural)]
pub enum Phase {
    Establishing,
    Relaying,
    Aborted,
}

/// One relay session: the paired lifecycle of one inbound and one outbound
/// connection being bridged by two independent forwarding loops.
#[derive(Clone, Copy, Debug, PartialEq, Eq, Structural)]
pub struct Session {
    pub phase: Phase,
    pub inbound_to_outbound: LoopState,
    pub outbound_to_inbound: LoopState,
}

impl Session {
    /// The state of the given direction's loop.
    pub open spec fn loop_state(self, d: Direction) -> LoopState {
        match d {
            Direction::InboundToOutbound => self.inbound_to_outbound,
            Direction::OutboundToInbound => self.outbound_to_inbound,
        }
    }

    /// How many forwarding loops the session has started.
    pub open spec fn loops_started(self) -> nat {
        (if self.inbound_to_outbound is NotStarted {
            0nat
        } else {
            1nat
        }) + (if self.outbound_to_inbound is NotStarted {
            0nat
        } else {
            1nat
        })
    }

    /// Well-formed: loops exist exactly while the session is (or was)
    /// relaying; a session that is still establishing, or that aborted
    /// because the outbound connection failed, has started none.
    pub open spec fn wf(self) -> bool {
        match self.phase {
            Phase::Establishing | Phase::Aborted => self.inbound_to_outbound is NotStarted
                && self.outbound_to_inbound is NotStarted,
            Phase::Relaying => !(self.inbound_to_outbound is NotStarted) && !(
            self.outbound_to_inbound is NotStarted),
        }
    }

    /// Both loops have exited: the session's resources are fully released.
    pub open spec fn finished(self) -> bool {
        self.inbound_to_outbound is Closed && self.outbound_to_inbound is Closed
    }

    /// A fresh session for one accepted inbound connection, still
    /// establishing its outbound side; no loop has been started.
    pub fn new() -> (s: Session)
        ensures
            s.wf(),
            s.phase == Phase::Establishing,
            s.loops_started() == 0,
    {
        Session {
            phase: Phase::Establishing,
            inbound_to_outbound: LoopState::NotStarted,
            outbound_to_inbound: LoopState::NotStarted,
        }
    }

    /// React to the outbound connector's report. On success the session moves
    /// to relaying with both forwarding loops started; on failure it aborts,
    /// starts zero loops, and hands the caller the establishment error to
    /// report — failure is fatal to this session only, never to the process.
    pub fn establish(&mut self, report: ConnectOutcome) -> (r: Result<(), ConnectionError>)
        requires
            old(self).wf(),
            old(self).phase == Phase::Establishing,
        ensures
            final(self).wf(),
            report is Connected ==> {
                &&& final(self).phase == Phase::Relaying
                &&& final(self).inbound_to_outbound == LoopState::Running
                &&& final(self).outbound_to_inbound == LoopState::Running
                &&& final(self).loops_started() == 2
                &&& r is Ok
            },
            (report matches ConnectOutcome::Failed(d) ==> {
                &&& final(self).phase == Phase::Aborted
                &&& final(self).loops_started() == 0
                &&& (r matches Err(e) && e.detail@ == d@)
            }),
    {
        match report {
            ConnectOutcome::Connected => {
                self.phase = Phase::Relaying;
                self.inbound_to_outbound = LoopState::Running;
                self.outbound_to_inbound = LoopState::Running;
                Ok(())
            },
            ConnectOutcome::Failed(detail) => {
                self.phase = Phase::Aborted;
                Err(ConnectionError { detail })
            },
        }
    }

    /// Record that one forwarding loop exited for the given cause. The exit
    /// is terminal for that direction alone: the sibling direction is not
    /// cancelled, not closed, not notified — its state is exactly what it was
    /// before the call (the current design has no cross-direction teardown).
    pub fn loop_exited(&mut self, d: Direction, cause: ExitCause)
        requires
            old(self).wf(),
            old(self).phase == Phase::Relaying,
            old(self).loop_state(d) == LoopState::Running,
        ensures
            final(self).wf(),
            final(self).phase == Phase::Relaying,
            final(self).loop_state(d) == LoopState::Closed(cause),
            final(self).loop_state(d.opposite()) == old(self).loop_state(d.opposite()),
    {
        match d {
            Direction::InboundToOutbound => {
                self.inbound_to_outbound = LoopState::Closed(cause);
            },
            Direction::OutboundToInbound => {
                self.outbound_to_inbound = LoopState::Closed(cause);
            },
        }
    }

    /// The state of the given direction's loop, for callers driving the
    /// session from outside.
    pub fn direction_state(&self, d: Direction) -> (r: LoopState)
        ensures
            r == self.loop_state(d),
    {
        match d {
            Direction::InboundToOutbound => self.inbound_to_outbound,
            Direction::OutboundToInbound => self.outbound_to_inbound,
        }
    }

    /// Whether both loops have exited and the session is over.
    pub fn is_finished(&self) -> (r: bool)
        ensures
            r == self.finished(),
    {
        let a = match self.inbound_to_outbound {
            LoopState::Closed(_) => true,
            _ => false,
        };
        let b = match self.outbound_to_inbound {
            LoopState::Closed(_) => true,
            _ => false,
        };
        a && b
    }
}

/// No cross-cancellation: however one direction's loop exits, and in whatever
/// order the two exits come, a still-running sibling keeps relaying — only
/// its own read or write failure can stop it.
pub proof fn lemma_no_cross_cancellation(before: Session, after: Session, d: Direction, cause: ExitCause)
    requires
        before.wf(),
        before.phase == Phase::Relaying,
        before.loop_state(d) == LoopState::Running,
        after.phase == Phase::Relaying,
        after.loop_state(d) == LoopState::Closed(cause),
        after.loop_state(d.opposite()) == before.loop_state(d.opposite()),
    ensures
        before.loop_state(d.opposite()) is Running ==> after.loop_state(d.opposite()) is Running,
        !after.finished() || before.loop_state(d.opposite()) is Closed,
{
}

} // verus!
