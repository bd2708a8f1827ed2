//! The shutdown-block gate: whether the end of the session is to be denied,
//! and the reason given to the operating system for it.

use vstd::prelude::*;
use vstd::string::*;
use crate::event::Answer;

verus! {

/// What a `BlockGate` holds.
pub struct BlockState {
    /// Whether the end of the session is to be denied.
    pub blocking: bool,
    /// The reason last registered and not yet released; empty when none is.
    pub reason: Seq<char>,
}

impl BlockState {
    /// The answer that this state gives to a shutdown query.
    pub open spec fn answer(self) -> Answer {
        if self.blocking {
            Answer::Deny
        } else {
            Answer::Permit
        }
    }
}

/// Holder of the block. It starts out not blocking and is changed by
/// `acquire` and `release` alone.
pub struct BlockGate {
    blocking: bool,
    reason: String,
}

impl View for BlockGate {
    type V = BlockState;

    closed spec fn view(&self) -> BlockState {
        BlockState { blocking: self.blocking, reason: self.reason@ }
    }
}

impl BlockGate {
    /// A gate that does not block and holds no reason.
    pub fn new() -> (gate: BlockGate)
        ensures
            gate@ == (BlockState { blocking: false, reason: Seq::empty() }),
    {
        BlockGate { blocking: false, reason: String::new() }
    }

    /// Starts blocking for `reason`. On a gate that blocks already the new
    /// reason replaces the old one.
    pub fn acquire(&mut self, reason: &str)
        ensures
            final(self)@ == (BlockState { blocking: true, reason: reason@ }),
    {
        self.blocking = true;
        self.reason = String::from_str(reason);
    }

    /// Stops blocking and forgets the reason.
    pub fn release(&mut self)
        ensures
            final(self)@ == (BlockState { blocking: false, reason: Seq::empty() }),
    {
        self.blocking = false;
        self.reason = String::new();
    }

    /// Whether the end of the session is to be denied.
    pub fn is_blocking(&self) -> (blocking: bool)
        ensures
            blocking == self@.blocking,
    {
        self.blocking
    }

    /// The reason held.
    pub fn reason(&self) -> (reason: &str)
        ensures
            reason@ == self@.reason,
    {
        self.reason.as_str()
    }

    /// The answer to a shutdown query as things stand.
    pub fn answer(&self) -> (answer: Answer)
        ensures
            answer == self@.answer(),
    {
        if self.blocking {
            Answer::Deny
        } else {
            Answer::Permit
        }
    }
}

} // verus!
