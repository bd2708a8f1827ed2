//! The window-procedure chain: what was installed before the interceptor, kept
//! for forwarding and for restoring.

use vstd::prelude::*;

verus! {

/// Address of a window procedure, as the operating system reports and accepts it.
#[derive(Clone, Copy, Debug, PartialEq, Eq, Structural)]
pub struct Procedure(pub isize);

/// Where the chain stands.
#[derive(Clone, Copy, Debug, PartialEq, Eq, Structural)]
pub enum ChainState {
    /// The interceptor is not installed and no procedure is recorded.
    Unhooked,
    /// The host was asked to swap the interceptor in and has not yet reported
    /// which procedure it replaced.
    Installing,
    /// The interceptor is installed in front of the recorded procedure.
    Hooked(Procedure),
}

impl ChainState {
    /// The recorded previous procedure, if there is one.
    pub open spec fn previous(self) -> Option<Procedure> {
        match self {
            ChainState::Hooked(procedure) => Some(procedure),
            _ => None,
        }
    }

    /// The state after a request to install: accepted from `Unhooked` only.
    pub open spec fn begin(self) -> ChainState {
        if self is Unhooked {
            ChainState::Installing
        } else {
            self
        }
    }

    /// The state after the host reports that it replaced `previous`: recorded
    /// while an installation is pending, ignored otherwise.
    pub open spec fn complete(self, previous: Procedure) -> ChainState {
        if self is Installing {
            ChainState::Hooked(previous)
        } else {
            self
        }
    }

    /// The state after removal: a recorded procedure is given up, anything
    /// else stays.
    pub open spec fn release(self) -> ChainState {
        if self is Hooked {
            ChainState::Unhooked
        } else {
            self
        }
    }
}

/// Owner of the previous procedure.
///
/// A procedure is recorded exactly while the interceptor is installed, so a
/// second installation cannot overwrite it and a removal restores exactly it.
pub struct ProcChain {
    state: ChainState,
}

impl View for ProcChain {
    type V = ChainState;

    closed spec fn view(&self) -> ChainState {
        self.state
    }
}

impl ProcChain {
    /// A chain with nothing installed.
    pub fn new() -> (chain: ProcChain)
        ensures
            chain@ == ChainState::Unhooked,
    {
        ProcChain { state: ChainState::Unhooked }
    }

    /// Where the chain stands.
    pub fn state(&self) -> (state: ChainState)
        ensures
            state == self@,
    {
        self.state
    }

    /// The recorded previous procedure, if there is one.
    pub fn previous(&self) -> (previous: Option<Procedure>)
        ensures
            previous == self@.previous(),
    {
        match self.state {
            ChainState::Hooked(procedure) => Some(procedure),
            _ => None,
        }
    }

    /// Asks to install the interceptor. Accepted only while nothing is
    /// installed or being installed; a refusal changes nothing.
    pub fn begin_install(&mut self) -> (accepted: bool)
        ensures
            accepted == (old(self)@ is Unhooked),
            final(self)@ == old(self)@.begin(),
    {
        match self.state {
            ChainState::Unhooked => {
                self.state = ChainState::Installing;
                true
            },
            _ => false,
        }
    }

    /// Records `previous` as the procedure that the interceptor replaced.
    /// Accepted only while an installation is pending; a refusal changes
    /// nothing.
    pub fn complete_install(&mut self, previous: Procedure) -> (recorded: bool)
        ensures
            recorded == (old(self)@ is Installing),
            final(self)@ == old(self)@.complete(previous),
    {
        match self.state {
            ChainState::Installing => {
                self.state = ChainState::Hooked(previous);
                true
            },
            _ => false,
        }
    }

    /// Gives up the recorded procedure, handing it out for restoring. Without
    /// a recorded procedure nothing changes and nothing is handed out.
    pub fn take_previous(&mut self) -> (previous: Option<Procedure>)
        ensures
            previous == old(self)@.previous(),
            final(self)@ == old(self)@.release(),
    {
        match self.state {
            ChainState::Hooked(procedure) => {
                self.state = ChainState::Unhooked;
                Some(procedure)
            },
            _ => None,
        }
    }
}

} // verus!
