//! The driver's loop as a machine of two states: what to do next, and what
//! each outcome makes of the link.

use crate::link::ReadOutcome;
use vstd::prelude::*;

verus! {

/// Milliseconds to wait before the tablet is looked for again.
pub const RECONNECT_DELAY_MS: u64 = 500;

/// Whether a tablet is linked.
#[derive(Clone, Copy, Debug, PartialEq, Eq, Structural)]
pub enum LinkState {
    /// No tablet is linked: it has to be found.
    Disconnected,
    /// A tablet is linked: it can be read.
    Connected,
}

/// What a turn of the loop starts with.
#[derive(Clone, Copy, Debug, PartialEq, Eq, Structural)]
pub enum LoopAction {
    /// Leave the loop.
    Stop,
    /// Look for the tablet, open it and set it up.
    Discover,
    /// Read one report.
    Read,
}

/// What follows a read.
#[derive(Clone, Copy, Debug, PartialEq, Eq, Structural)]
pub enum ReadReaction {
    /// Decode the report, send its events and end the batch.
    Dispatch,
    /// Nothing came: go on.
    Idle,
    /// The tablet is gone: let go of the link.
    DropLink,
}

/// What a turn starts with: the loop ends once a signal asked for it;
/// otherwise a linked tablet is read and a missing one looked for.
pub open spec fn action_for(state: LinkState, terminate: bool) -> LoopAction {
    if terminate {
        LoopAction::Stop
    } else {
        match state {
            LinkState::Disconnected => LoopAction::Discover,
            LinkState::Connected => LoopAction::Read,
        }
    }
}

/// The link after an attempt to find and set up the tablet.
pub open spec fn state_after_discovery(state: LinkState, found: bool) -> LinkState {
    match state {
        LinkState::Disconnected => if found {
            LinkState::Connected
        } else {
            LinkState::Disconnected
        },
        LinkState::Connected => LinkState::Connected,
    }
}

/// How long to wait after an attempt to find the tablet.
pub open spec fn delay_after_discovery(state: LinkState, found: bool) -> u64 {
    if state == LinkState::Disconnected && !found {
        RECONNECT_DELAY_MS
    } else {
        0
    }
}

/// What follows a read that came to `outcome`.
pub open spec fn reaction_to(state: LinkState, outcome: ReadOutcome) -> ReadReaction {
    match state {
        LinkState::Disconnected => ReadReaction::Idle,
        LinkState::Connected => match outcome {
            ReadOutcome::Report(len) => if len > 0 {
                ReadReaction::Dispatch
            } else {
                ReadReaction::Idle
            },
            ReadOutcome::Timeout => ReadReaction::Idle,
            ReadOutcome::Disconnected => ReadReaction::DropLink,
        },
    }
}

/// The link after a read that came to `outcome`.
pub open spec fn state_after_read(state: LinkState, outcome: ReadOutcome) -> LinkState {
    match reaction_to(state, outcome) {
        ReadReaction::DropLink => LinkState::Disconnected,
        _ => state,
    }
}

/// The link after the end of a sample's batch was sent, or could not be.
pub open spec fn state_after_flush(state: LinkState, flushed: bool) -> LinkState {
    if flushed {
        state
    } else {
        LinkState::Disconnected
    }
}

/// The loop's state.
#[derive(Clone, Copy, Debug, PartialEq, Eq, Structural)]
pub struct DriverLoop {
    pub state: LinkState,
}

impl DriverLoop {
    /// A loop that has no tablet yet.
    pub fn new() -> (r: Self)
        ensures
            r.state == LinkState::Disconnected,
    {
        DriverLoop { state: LinkState::Disconnected }
    }

    /// What the next turn starts with; `terminate` tells whether a signal
    /// asked the driver to end.
    pub fn next_action(&self, terminate: bool) -> (r: LoopAction)
        ensures
            r == action_for(self.state, terminate),
    {
        if terminate {
            LoopAction::Stop
        } else {
            match self.state {
                LinkState::Disconnected => LoopAction::Discover,
                LinkState::Connected => LoopAction::Read,
            }
        }
    }

    /// Takes note of an attempt to find and set up the tablet, and tells how
    /// many milliseconds to wait before the next turn.
    pub fn on_discovery(&mut self, found: bool) -> (delay_ms: u64)
        ensures
            final(self).state == state_after_discovery(old(self).state, found),
            delay_ms == delay_after_discovery(old(self).state, found),
    {
        match self.state {
            LinkState::Disconnected => {
                if found {
                    self.state = LinkState::Connected;
                    0
                } else {
                    RECONNECT_DELAY_MS
                }
            },
            LinkState::Connected => 0,
        }
    }

    /// Takes note of a read, and tells what follows it.
    pub fn on_read(&mut self, outcome: ReadOutcome) -> (r: ReadReaction)
        ensures
            r == reaction_to(old(self).state, outcome),
            final(self).state == state_after_read(old(self).state, outcome),
    {
        match self.state {
            LinkState::Disconnected => ReadReaction::Idle,
            LinkState::Connected => match outcome {
                ReadOutcome::Report(len) => {
                    if len > 0 {
                        ReadReaction::Dispatch
                    } else {
                        ReadReaction::Idle
                    }
                },
                ReadOutcome::Timeout => ReadReaction::Idle,
                ReadOutcome::Disconnected => {
                    self.state = LinkState::Disconnected;
                    ReadReaction::DropLink
                },
            },
        }
    }

    /// Takes note of whether the end of a sample's batch could be sent: where
    /// it could not, the link is given up and the tablet looked for again.
    pub fn on_flush(&mut self, flushed: bool)
        ensures
            final(self).state == state_after_flush(old(self).state, flushed),
    {
        if !flushed {
            self.state = LinkState::Disconnected;
        }
    }
}

/// A read that fails with anything but a timeout is answered by letting go of
/// the link, and the turn after it looks for the tablet again; a timeout
/// leaves the link as it is, and the turn after it reads again.
pub proof fn lemma_reconnect(error: rusb::Error)
    ensures
        error != rusb::Error::Timeout ==> {
            let outcome = crate::link::outcome_of(Err(error));
            &&& reaction_to(LinkState::Connected, outcome) == ReadReaction::DropLink
            &&& state_after_read(LinkState::Connected, outcome) == LinkState::Disconnected
            &&& action_for(state_after_read(LinkState::Connected, outcome), false)
                == LoopAction::Discover
        },
        error == rusb::Error::Timeout ==> {
            let outcome = crate::link::outcome_of(Err(error));
            &&& reaction_to(LinkState::Connected, outcome) == ReadReaction::Idle
            &&& state_after_read(LinkState::Connected, outcome) == LinkState::Connected
            &&& action_for(state_after_read(LinkState::Connected, outcome), false)
                == LoopAction::Read
        },
{
}

} // verus!
