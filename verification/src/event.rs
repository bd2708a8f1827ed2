//! Window messages and how the interceptor classifies them.

use vstd::prelude::*;
use crate::window::WindowHandle;

verus! {

/// Message identifier of the question whether the session may end.
pub const WM_QUERYENDSESSION: u32 = 0x0011;

/// Message identifier of the announcement that the decision on ending the
/// session has been made.
pub const WM_ENDSESSION: u32 = 0x0016;

/// One message as the operating system delivers it to a window procedure.
#[derive(Clone, Copy, Debug, PartialEq, Eq, Structural)]
pub struct Message {
    /// The window that the message is for.
    pub window: WindowHandle,
    /// The message identifier.
    pub event: u32,
    /// The first parameter. With `WM_ENDSESSION` it is nonzero exactly when
    /// the session is really ending.
    pub w_param: usize,
    /// The second parameter.
    pub l_param: isize,
}

/// What a message means to the interceptor.
#[derive(Clone, Copy, Debug, PartialEq, Eq, Structural)]
pub enum EventKind {
    /// The operating system asks whether the session may end.
    QueryEndSession,
    /// The session is not ending after all: some participant denied or
    /// cancelled the shutdown.
    EndSessionCancelled,
    /// Anything else, which is the business of the previous procedure.
    Other,
}

/// The meaning of the message with identifier `event` and first parameter
/// `w_param`.
pub open spec fn kind_of(event: u32, w_param: usize) -> EventKind {
    if event == WM_QUERYENDSESSION {
        EventKind::QueryEndSession
    } else if event == WM_ENDSESSION && w_param == 0 {
        EventKind::EndSessionCancelled
    } else {
        EventKind::Other
    }
}

/// Classifies the message with identifier `event` and first parameter
/// `w_param`.
pub fn classify(event: u32, w_param: usize) -> (kind: EventKind)
    ensures
        kind == kind_of(event, w_param),
{
    if event == WM_QUERYENDSESSION {
        EventKind::QueryEndSession
    } else if event == WM_ENDSESSION && w_param == 0 {
        EventKind::EndSessionCancelled
    } else {
        EventKind::Other
    }
}

/// The answer to the question whether the session may end.
#[derive(Clone, Copy, Debug, PartialEq, Eq, Structural)]
pub enum Answer {
    /// The end of the session is denied, or at least delayed.
    Deny,
    /// The session may end.
    Permit,
}

impl Answer {
    /// The value that the window procedure returns for this answer.
    pub open spec fn code(self) -> isize {
        match self {
            Answer::Deny => 0,
            Answer::Permit => 1,
        }
    }

    /// The value that the window procedure returns for this answer: zero to
    /// deny, one to permit.
    pub fn result(&self) -> (result: isize)
        ensures
            result == self.code(),
    {
        match self {
            Answer::Deny => 0,
            Answer::Permit => 1,
        }
    }
}

/// The value that the window procedure returns when it learns that the
/// session is not ending after all.
pub const CANCELLED_RESULT: isize = 0;

} // verus!
