//! The shutdown interceptor: one context that owns the window registry, the
//! procedure chain, the block gate and the event bridge, the operations on
//! it, and the window procedure itself.
//!
//! Nothing here calls the operating system. Each operation changes the
//! context and returns what the host has to ask of the operating system;
//! where the operating system's reply matters, the host hands it back through
//! a second call.

use vstd::prelude::*;
use crate::bridge::{notification_for, EventBridge, Notification};
use crate::chain::{ChainState, ProcChain, Procedure};
use crate::event::{classify, kind_of, EventKind, Message, CANCELLED_RESULT};
use crate::gate::{BlockGate, BlockState};
use crate::wide::{to_wide, wide_string};
use crate::window::{WindowHandle, WindowRegistry};

verus! {

/// The highest shutdown level open to applications: a process at this level
/// is asked about the end of the session before all others.
pub const SHUTDOWN_LEVEL: u32 = 0x3FF;

/// Request to set the order in which the process is asked about the end of
/// the session.
#[derive(Clone, Copy, Debug, PartialEq, Eq, Structural)]
pub struct ShutdownParameters {
    /// The shutdown level of the process.
    pub level: u32,
    /// The flags that go with it.
    pub flags: u32,
}

/// Request to make the interceptor the procedure of `window` and to report
/// the procedure that it replaces.
#[derive(Clone, Copy, Debug, PartialEq, Eq, Structural)]
pub struct SwapProcedure {
    /// The window whose procedure is swapped.
    pub window: WindowHandle,
}

/// Request to make `procedure` the procedure of `window` again.
#[derive(Clone, Copy, Debug, PartialEq, Eq, Structural)]
pub struct RestoreProcedure {
    /// The window whose procedure is restored.
    pub window: WindowHandle,
    /// The procedure that the interceptor had replaced.
    pub procedure: Procedure,
}

/// Request to register a reason for delaying the end of the session.
#[derive(Debug)]
pub struct CreateBlockReason {
    /// The window that the reason is registered for.
    pub window: WindowHandle,
    /// The reason as a wide string, terminating zero included.
    pub reason: Vec<u16>,
}

/// Request to clear the registered reason and to report whether that worked.
#[derive(Clone, Copy, Debug, PartialEq, Eq, Structural)]
pub struct DestroyBlockReason {
    /// The window whose reason is cleared.
    pub window: WindowHandle,
}

/// How a removal of the hook ended.
#[derive(Clone, Copy, Debug, PartialEq, Eq, Structural)]
pub enum Removal {
    /// No window is set: nothing was done, the removal failed.
    Refused,
    /// No procedure was recorded: nothing was done, and that counts as
    /// success.
    Idle,
    /// The chain was taken down; the host has to restore the procedure.
    Restore(RestoreProcedure),
}

impl Removal {
    /// Whether the removal counts as a success.
    pub open spec fn ok(self) -> bool {
        !(self is Refused)
    }

    /// Whether the removal counts as a success: all but a refusal do.
    pub fn succeeded(&self) -> (ok: bool)
        ensures
            ok == self.ok(),
    {
        match self {
            Removal::Refused => false,
            _ => true,
        }
    }
}

/// What the window procedure does with one message.
pub enum Dispatch<'a, C> {
    /// The interceptor answers the message itself.
    Answered {
        /// Whom to notify, and with what; the host only enqueues it and does
        /// not wait for the listener.
        notification: Option<Notification<'a, C>>,
        /// The value to return to the operating system.
        result: isize,
    },
    /// The message goes on, unchanged, to the previous procedure, whose
    /// return value is returned to the operating system untouched.
    Forwarded {
        /// The previous procedure, if one is recorded.
        procedure: Option<Procedure>,
        /// The message as it came in.
        message: Message,
    },
}

/// The interceptor's state as a mathematical value.
pub struct InterceptorView<C> {
    /// The window worked on; null while none is set.
    pub window: WindowHandle,
    /// Where the procedure chain stands.
    pub chain: ChainState,
    /// What the block gate holds.
    pub gate: BlockState,
    /// The registered listener, if any.
    pub callback: Option<C>,
}

impl<C> InterceptorView<C> {
    /// The state before any operation.
    pub open spec fn initial() -> Self {
        InterceptorView {
            window: WindowHandle(0),
            chain: ChainState::Unhooked,
            gate: BlockState { blocking: false, reason: Seq::empty() },
            callback: None,
        }
    }

    /// Whether a window is set.
    pub open spec fn has_window(self) -> bool {
        !self.window.is_null()
    }

    /// The state after `handle` is stored.
    pub open spec fn with_window(self, handle: WindowHandle) -> Self {
        InterceptorView { window: handle, ..self }
    }

    /// Whether an installation is accepted: a window is set and the chain
    /// holds no procedure and awaits none.
    pub open spec fn accepts_install(self) -> bool {
        self.has_window() && self.chain is Unhooked
    }

    /// The state after an installation is asked for with `callback`: a
    /// callback is registered in any case; the chain starts to install only
    /// where the installation is accepted.
    pub open spec fn insert(self, callback: Option<C>) -> Self {
        InterceptorView {
            callback: if callback is Some {
                callback
            } else {
                self.callback
            },
            chain: if self.accepts_install() {
                ChainState::Installing
            } else {
                self.chain
            },
            ..self
        }
    }

    /// The state after the host reports that the interceptor replaced
    /// `previous`.
    pub open spec fn swapped(self, previous: Procedure) -> Self {
        InterceptorView { chain: self.chain.complete(previous), ..self }
    }

    /// How a removal ends in this state.
    pub open spec fn removal(self) -> Removal {
        if !self.has_window() {
            Removal::Refused
        } else {
            match self.chain {
                ChainState::Hooked(procedure) => Removal::Restore(
                    RestoreProcedure { window: self.window, procedure },
                ),
                _ => Removal::Idle,
            }
        }
    }

    /// The state after a removal: where a procedure is to be restored, the
    /// chain and the callback slot are cleared together; otherwise nothing
    /// changes.
    pub open spec fn remove(self) -> Self {
        if self.removal() is Restore {
            InterceptorView { chain: ChainState::Unhooked, callback: None, ..self }
        } else {
            self
        }
    }

    /// The state after a block is asked for with `reason`.
    pub open spec fn acquire(self, reason: Seq<char>) -> Self {
        if self.has_window() {
            InterceptorView { gate: BlockState { blocking: true, reason }, ..self }
        } else {
            self
        }
    }

    /// The state after the block is given up.
    pub open spec fn release(self) -> Self {
        if self.has_window() {
            InterceptorView {
                gate: BlockState { blocking: false, reason: Seq::empty() },
                ..self
            }
        } else {
            self
        }
    }

    /// What the window procedure does with `message` in this state.
    pub open spec fn dispatch<'a>(self, message: Message) -> Dispatch<'a, C> {
        match kind_of(message.event, message.w_param) {
            EventKind::QueryEndSession => Dispatch::Answered {
                notification: notification_for(self.callback, message.l_param as i64),
                result: self.gate.answer().code(),
            },
            EventKind::EndSessionCancelled => Dispatch::Answered {
                notification: None,
                result: CANCELLED_RESULT,
            },
            EventKind::Other => Dispatch::Forwarded {
                procedure: self.chain.previous(),
                message,
            },
        }
    }
}

/// The one context that owns all state of the interception.
///
/// `C` is the host's handle on the application's listener; the interceptor
/// stores it and hands it out again and never looks inside.
pub struct Interceptor<C> {
    registry: WindowRegistry,
    chain: ProcChain,
    gate: BlockGate,
    bridge: EventBridge<C>,
}

impl<C> View for Interceptor<C> {
    type V = InterceptorView<C>;

    closed spec fn view(&self) -> InterceptorView<C> {
        InterceptorView {
            window: self.registry@,
            chain: self.chain@,
            gate: self.gate@,
            callback: self.bridge@,
        }
    }
}

impl<C> Interceptor<C> {
    /// A context with no window, no hook, no block and no listener.
    pub fn new() -> (interceptor: Interceptor<C>)
        ensures
            interceptor@ == InterceptorView::<C>::initial(),
    {
        Interceptor {
            registry: WindowRegistry::new(),
            chain: ProcChain::new(),
            gate: BlockGate::new(),
            bridge: EventBridge::new(),
        }
    }

    /// The window worked on; the null handle while none is set.
    pub fn window(&self) -> (window: WindowHandle)
        ensures
            window == self@.window,
    {
        self.registry.handle()
    }

    /// Where the procedure chain stands.
    pub fn chain_state(&self) -> (state: ChainState)
        ensures
            state == self@.chain,
    {
        self.chain.state()
    }

    /// The recorded previous procedure, if there is one.
    pub fn previous_procedure(&self) -> (previous: Option<Procedure>)
        ensures
            previous == self@.chain.previous(),
    {
        self.chain.previous()
    }

    /// Whether the end of the session is currently to be denied.
    pub fn is_blocking(&self) -> (blocking: bool)
        ensures
            blocking == self@.gate.blocking,
    {
        self.gate.is_blocking()
    }

    /// The reason of the current block; empty when there is none.
    pub fn block_reason(&self) -> (reason: &str)
        ensures
            reason@ == self@.gate.reason,
    {
        self.gate.reason()
    }

    /// The registered listener, if there is one.
    pub fn callback(&self) -> (callback: Option<&C>)
        ensures
            callback == (match self@.callback {
                Some(c) => Some(&c),
                None => None,
            }),
    {
        self.bridge.callback()
    }
}

/// Stores `h_wnd` as the window to work on, unconditionally, and asks for the
/// process to be put first in line for shutdown notifications.
pub fn set_main_window_handle<C>(
    interceptor: &mut Interceptor<C>,
    h_wnd: WindowHandle,
) -> (request: ShutdownParameters)
    ensures
        final(interceptor)@ == old(interceptor)@.with_window(h_wnd),
        request == (ShutdownParameters { level: SHUTDOWN_LEVEL, flags: 0 }),
{
    interceptor.registry.set(h_wnd);
    ShutdownParameters { level: SHUTDOWN_LEVEL, flags: 0 }
}

/// Asks to install the interceptor in front of the window's procedure.
///
/// A `callback` that is given is registered whether or not the installation
/// is accepted; with `None` the slot keeps what it holds. The installation is
/// accepted exactly when a window is set and the chain neither holds nor
/// awaits a procedure. Then the host has to carry out the returned request
/// and report the replaced procedure through [`procedure_swapped`]. `None`
/// is the refusal.
pub fn insert_wnd_proc_hook<C>(
    interceptor: &mut Interceptor<C>,
    callback: Option<C>,
) -> (request: Option<SwapProcedure>)
    ensures
        final(interceptor)@ == old(interceptor)@.insert(callback),
        request == (if old(interceptor)@.accepts_install() {
            Some(SwapProcedure { window: old(interceptor)@.window })
        } else {
            None
        }),
{
    if let Some(callback) = callback {
        interceptor.bridge.register(callback);
    }
    match interceptor.registry.active() {
        None => None,
        Some(window) => {
            if interceptor.chain.begin_install() {
                Some(SwapProcedure { window })
            } else {
                None
            }
        },
    }
}

/// Takes the host's report that the interceptor replaced `previous`.
///
/// While an installation is pending, `previous` is recorded and the hook
/// counts as installed: the result is `true`. At any other time the report is
/// ignored and the result is `false`.
pub fn procedure_swapped<C>(interceptor: &mut Interceptor<C>, previous: Procedure) -> (installed:
    bool)
    ensures
        final(interceptor)@ == old(interceptor)@.swapped(previous),
        installed == (old(interceptor)@.chain is Installing),
{
    interceptor.chain.complete_install(previous)
}

/// Takes the hook down again.
///
/// Without a window this fails and changes nothing. With a recorded
/// procedure the callback slot and the record are cleared and the host has
/// to restore exactly that procedure. Without one nothing happens, which
/// counts as success.
pub fn remove_wnd_proc_hook<C>(interceptor: &mut Interceptor<C>) -> (removal: Removal)
    ensures
        final(interceptor)@ == old(interceptor)@.remove(),
        removal == old(interceptor)@.removal(),
{
    match interceptor.registry.active() {
        None => Removal::Refused,
        Some(window) => {
            match interceptor.chain.take_previous() {
                Some(procedure) => {
                    interceptor.bridge.clear();
                    Removal::Restore(RestoreProcedure { window, procedure })
                },
                None => Removal::Idle,
            }
        },
    }
}

/// Starts denying the end of the session, for `reason`.
///
/// Without a window this fails: the result is `None` and nothing changes.
/// Otherwise the block holds from now on, `reason` replaces any earlier one,
/// and the host has to register the returned wide string with the operating
/// system.
pub fn acquire_shutdown_block<C>(interceptor: &mut Interceptor<C>, reason: &str) -> (request:
    Option<CreateBlockReason>)
    ensures
        final(interceptor)@ == old(interceptor)@.acquire(reason@),
        (request is Some) == old(interceptor)@.has_window(),
        request matches Some(create) ==> create.window == old(interceptor)@.window
            && create.reason@ == wide_string(reason@),
{
    match interceptor.registry.active() {
        None => None,
        Some(window) => {
            interceptor.gate.acquire(reason);
            Some(CreateBlockReason { window, reason: to_wide(reason) })
        },
    }
}

/// Stops denying the end of the session.
///
/// Without a window this fails: the result is `None` and nothing changes.
/// Otherwise the block ends at once, whatever the operating system
/// will say, and the host has to clear the registered reason; what the
/// operation reports to the application is then told by
/// [`release_result`].
pub fn release_shutdown_block<C>(interceptor: &mut Interceptor<C>) -> (request: Option<
    DestroyBlockReason,
>)
    ensures
        final(interceptor)@ == old(interceptor)@.release(),
        request == (if old(interceptor)@.has_window() {
            Some(DestroyBlockReason { window: old(interceptor)@.window })
        } else {
            None
        }),
{
    match interceptor.registry.active() {
        None => None,
        Some(window) => {
            interceptor.gate.release();
            Some(DestroyBlockReason { window })
        },
    }
}

/// What a release reports to the application: failure where it was refused,
/// and otherwise whatever the operating system reported for the clearing,
/// given as `cleared`.
pub fn release_result(request: &Option<DestroyBlockReason>, cleared: bool) -> (ok: bool)
    ensures
        ok == (request is Some && cleared),
{
    match request {
        Some(_) => cleared,
        None => false,
    }
}

/// The window procedure: decides what happens with one message.
///
/// A shutdown query is answered from the block gate as it stands, and the
/// registered listener, if any, is to be notified with `l_param`; the answer
/// does not wait for the listener. The news that the session is not ending is
/// answered with a fixed value and notifies nobody. Every other message is
/// forwarded unchanged to the previous procedure.
pub fn window_proc<'a, C>(
    interceptor: &'a Interceptor<C>,
    h_wnd: WindowHandle,
    event: u32,
    w_param: usize,
    l_param: isize,
) -> (dispatch: Dispatch<'a, C>)
    ensures
        dispatch == interceptor@.dispatch(
            Message { window: h_wnd, event, w_param, l_param },
        ),
{
    match classify(event, w_param) {
        EventKind::QueryEndSession => Dispatch::Answered {
            notification: interceptor.bridge.notify(l_param as i64),
            result: interceptor.gate.answer().result(),
        },
        EventKind::EndSessionCancelled => Dispatch::Answered {
            notification: None,
            result: CANCELLED_RESULT,
        },
        EventKind::Other => Dispatch::Forwarded {
            procedure: interceptor.chain.previous(),
            message: Message { window: h_wnd, event, w_param, l_param },
        },
    }
}

} // verus!
