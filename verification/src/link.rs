//! The loop that keeps a slave connected to its master.
//!
//! The loop does what it is told by an action, and hands back what came of it as
//! an event. In between, the signals of the session are obeyed one at a time.
use crate::state::Actions;
use vstd::prelude::*;

verus! {

/// Where the loop stands.
#[derive(Clone, Copy, Debug, PartialEq, Eq, Structural)]
pub enum Phase {
    /// Connecting to the master.
    Connecting,
    /// Connected, and looking for a signal of the session.
    Polling,
    /// Connected, and reading a packet.
    Reading,
    /// Sleeping before the next connection.
    Waiting,
    /// Over.
    Finished,
}

/// What came of an action.
#[derive(Clone, Copy, Debug, PartialEq, Eq, Structural)]
pub enum LinkEvent {
    /// Whether the connection stands.
    Connected(bool),
    /// The next signal of the session, if there is one.
    Signalled(Option<Actions>),
    /// Whether a packet came.
    Received(bool),
    /// The sleep is over.
    Slept,
}

/// What to do next.
#[derive(Clone, Copy, Debug, PartialEq, Eq, Structural)]
pub enum LinkAction {
    Connect,
    /// Open a session, send its handshake, and look for a signal.
    OpenSession,
    /// Look for a signal.
    PollSignal,
    ReadPacket,
    /// Hand the packet to the session, and look for a signal.
    Dispatch,
    /// Sleep that many seconds, and then drop the connection, if there is one.
    Sleep(u64),
    /// Drop the connection, and end.
    Exit,
}

impl Phase {
    /// Whether what the loop does in this phase can come to that.
    pub open spec fn awaits(self, event: LinkEvent) -> bool {
        match self {
            Phase::Connecting => event is Connected,
            Phase::Polling => event is Signalled,
            Phase::Reading => event is Received,
            Phase::Waiting => event is Slept,
            Phase::Finished => false,
        }
    }
}

/// Where an event leads, and what is to be done there. The phase is the one that
/// awaits the event.
pub open spec fn next(event: LinkEvent, sleep_time: u64) -> (Phase, LinkAction) {
    match event {
        LinkEvent::Connected(true) => (Phase::Polling, LinkAction::OpenSession),
        LinkEvent::Connected(false) => (Phase::Waiting, LinkAction::Sleep(sleep_time)),
        LinkEvent::Signalled(Some(Actions::Reconnect(secs))) => (
            Phase::Waiting,
            LinkAction::Sleep(secs),
        ),
        LinkEvent::Signalled(Some(Actions::Shutdown)) => (Phase::Finished, LinkAction::Exit),
        LinkEvent::Signalled(_) => (Phase::Reading, LinkAction::ReadPacket),
        LinkEvent::Received(true) => (Phase::Polling, LinkAction::Dispatch),
        LinkEvent::Received(false) => (Phase::Polling, LinkAction::PollSignal),
        LinkEvent::Slept => (Phase::Connecting, LinkAction::Connect),
    }
}

/// The state of the loop.
pub struct Link {
    pub phase: Phase,
    /// The seconds to wait after a connection could not be made.
    pub sleep_time: u64,
}

/// The loop that has not done anything yet.
pub open spec fn begun(sleep_time: u64) -> Link {
    Link { phase: Phase::Connecting, sleep_time }
}

impl Link {
    /// The loop after an event, and what is to be done there.
    pub open spec fn stepped(self, event: LinkEvent) -> (Link, LinkAction) {
        let (phase, action) = next(event, self.sleep_time);
        (Link { phase, ..self }, action)
    }

    /// A loop that is to connect first, and to wait `sleep_time` seconds whenever
    /// it cannot.
    pub fn new(sleep_time: u64) -> (link: Link)
        ensures
            link.phase == Phase::Connecting,
            link.sleep_time == sleep_time,
            link == begun(sleep_time),
    {
        Link { phase: Phase::Connecting, sleep_time }
    }

    /// Takes in what came of the last action.
    pub fn step(&mut self, event: LinkEvent) -> (action: LinkAction)
        requires
            old(self).phase.awaits(event),
        ensures
            (final(self).phase, action) == next(event, old(self).sleep_time),
            final(self).sleep_time == old(self).sleep_time,
            (*final(self), action) == old(self).stepped(event),
    {
        match event {
            LinkEvent::Connected(connected) => {
                if connected {
                    self.phase = Phase::Polling;
                    LinkAction::OpenSession
                } else {
                    self.phase = Phase::Waiting;
                    LinkAction::Sleep(self.sleep_time)
                }
            },
            LinkEvent::Signalled(Some(Actions::Reconnect(secs))) => {
                self.phase = Phase::Waiting;
                LinkAction::Sleep(secs)
            },
            LinkEvent::Signalled(Some(Actions::Shutdown)) => {
                self.phase = Phase::Finished;
                LinkAction::Exit
            },
            LinkEvent::Signalled(_) => {
                self.phase = Phase::Reading;
                LinkAction::ReadPacket
            },
            LinkEvent::Received(received) => {
                self.phase = Phase::Polling;
                if received {
                    LinkAction::Dispatch
                } else {
                    LinkAction::PollSignal
                }
            },
            LinkEvent::Slept => {
                self.phase = Phase::Connecting;
                LinkAction::Connect
            },
        }
    }
}

} // verus!
