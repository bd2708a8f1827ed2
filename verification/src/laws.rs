//! What holds of the interceptor over whole runs of calls, proved from the
//! state transitions that the operations are specified by.

use vstd::prelude::*;
use crate::chain::{ChainState, Procedure};
use crate::event::{kind_of, Answer, Message};
use crate::power::{Dispatch, InterceptorView, Removal, RestoreProcedure};
use crate::window::WindowHandle;

verus! {

/// One call that changes the interceptor's state.
pub enum Call<C> {
    /// `set_main_window_handle` with this handle.
    SetWindow(WindowHandle),
    /// `insert_wnd_proc_hook` with this callback.
    InsertHook(Option<C>),
    /// `procedure_swapped` with this procedure.
    ProcedureSwapped(Procedure),
    /// `remove_wnd_proc_hook`.
    RemoveHook,
    /// `acquire_shutdown_block` with this reason.
    AcquireBlock(Seq<char>),
    /// `release_shutdown_block`.
    ReleaseBlock,
}

/// The state after `call` is made in `state`.
pub open spec fn apply<C>(state: InterceptorView<C>, call: Call<C>) -> InterceptorView<C> {
    match call {
        Call::SetWindow(handle) => state.with_window(handle),
        Call::InsertHook(callback) => state.insert(callback),
        Call::ProcedureSwapped(previous) => state.swapped(previous),
        Call::RemoveHook => state.remove(),
        Call::AcquireBlock(reason) => state.acquire(reason),
        Call::ReleaseBlock => state.release(),
    }
}

/// The state after `calls` are made in `state`, first to last.
pub open spec fn run<C>(state: InterceptorView<C>, calls: Seq<Call<C>>) -> InterceptorView<C>
    decreases calls.len(),
{
    if calls.len() == 0 {
        state
    } else {
        apply(run(state, calls.drop_last()), calls.last())
    }
}

/// Whether no call in `calls` removes the hook.
pub open spec fn removes_nothing<C>(calls: Seq<Call<C>>) -> bool {
    forall|i: int| 0 <= i < calls.len() ==> !(#[trigger] calls[i] is RemoveHook)
}

/// An installation is accepted only with a window set and no procedure
/// recorded, and a refused one leaves the chain as it was.
pub proof fn lemma_install_conditions<C>(state: InterceptorView<C>, callback: Option<C>)
    ensures
        state.accepts_install() ==> state.has_window() && state.chain.previous() is None,
        !state.accepts_install() ==> state.insert(callback).chain == state.chain,
{
}

/// Once a procedure is recorded, it stays recorded, untouched, through every
/// run of calls that removes nothing, and every installation asked for after
/// such a run is refused.
pub proof fn lemma_recorded_procedure_stays<C>(
    state: InterceptorView<C>,
    calls: Seq<Call<C>>,
    procedure: Procedure,
)
    requires
        state.chain == ChainState::Hooked(procedure),
        removes_nothing(calls),
    ensures
        run(state, calls).chain == ChainState::Hooked(procedure),
        !run(state, calls).accepts_install(),
    decreases calls.len(),
{
    if calls.len() > 0 {
        let earlier = calls.drop_last();
        assert forall|i: int| 0 <= i < earlier.len() implies !(#[trigger] earlier[i]
            is RemoveHook) by {
            assert(earlier[i] == calls[i]);
        }
        lemma_recorded_procedure_stays(state, earlier, procedure);
        assert(!(calls[calls.len() - 1] is RemoveHook));
    }
}

/// From the moment an installation is accepted, every further installation
/// is refused through every run of calls that removes nothing, whether or not
/// the host has reported the replaced procedure by then.
pub proof fn lemma_no_second_install<C>(state: InterceptorView<C>, calls: Seq<Call<C>>)
    requires
        !(state.chain is Unhooked),
        removes_nothing(calls),
    ensures
        !(run(state, calls).chain is Unhooked),
        !run(state, calls).accepts_install(),
    decreases calls.len(),
{
    if calls.len() > 0 {
        let earlier = calls.drop_last();
        assert forall|i: int| 0 <= i < earlier.len() implies !(#[trigger] earlier[i]
            is RemoveHook) by {
            assert(earlier[i] == calls[i]);
        }
        lemma_no_second_install(state, earlier);
        assert(!(calls[calls.len() - 1] is RemoveHook));
    }
}

/// Removal is idempotent: with a window set it succeeds, and a second removal
/// right after it succeeds too, asks nothing of the host and changes nothing.
pub proof fn lemma_remove_idempotent<C>(state: InterceptorView<C>)
    requires
        state.has_window(),
    ensures
        state.removal().ok(),
        state.remove().removal() == Removal::Idle,
        state.remove().remove() == state.remove(),
{
}

/// The window's entry in the operating system's dispatch table, as far as
/// the chain is concerned.
pub struct DispatchTable {
    /// The procedure that the window's messages are delivered to.
    pub active: Procedure,
    /// The interceptor's own entry point.
    pub interceptor: Procedure,
}

impl DispatchTable {
    /// Whether the table and `state` agree on who handles the window's
    /// messages: the interceptor is the active procedure exactly while the
    /// chain is not unhooked.
    pub open spec fn agrees_with<C>(self, state: InterceptorView<C>) -> bool {
        (self.active == self.interceptor) == !(state.chain is Unhooked)
    }

    /// The table after the host has swapped the interceptor in.
    pub open spec fn swap(self) -> DispatchTable {
        DispatchTable { active: self.interceptor, ..self }
    }

    /// The table after the host has carried out `request`.
    pub open spec fn restore(self, request: RestoreProcedure) -> DispatchTable {
        DispatchTable { active: request.procedure, ..self }
    }

    /// The foreign procedure that `message` ends up at when the interceptor
    /// is in `state`: the active one, unless that is the interceptor, which
    /// forwards to the procedure it has recorded or answers by itself.
    pub open spec fn route<C>(self, state: InterceptorView<C>, message: Message) -> Option<
        Procedure,
    > {
        if self.active == self.interceptor {
            match state.dispatch(message) {
                Dispatch::Forwarded { procedure, .. } => procedure,
                Dispatch::Answered { .. } => None,
            }
        } else {
            Some(self.active)
        }
    }
}

/// Round trip. Take a table that agrees with a state in which an
/// installation is accepted. After the installation, with the swap carried
/// out and reported, every message that is no shutdown message reaches the
/// procedure that was active before. After the removal that follows, with its
/// request carried out, the table is what it was before the installation:
/// that procedure is the active one again and still receives every such
/// message.
pub proof fn lemma_install_remove_round_trip<C>(
    state: InterceptorView<C>,
    table: DispatchTable,
    callback: Option<C>,
    message: Message,
)
    requires
        state.accepts_install(),
        table.agrees_with(state),
        kind_of(message.event, message.w_param) is Other,
    ensures
        ({
            let hooked = state.insert(callback).swapped(table.active);
            let removal = hooked.removal();
            &&& hooked.chain == ChainState::Hooked(table.active)
            &&& table.swap().agrees_with(hooked)
            &&& table.swap().route(hooked, message) == Some(table.active)
            &&& removal == Removal::Restore(
                RestoreProcedure { window: state.window, procedure: table.active },
            )
            &&& hooked.remove().chain is Unhooked
            &&& hooked.remove().callback is None
            &&& table.swap().restore(removal->0) == table
            &&& table.agrees_with(hooked.remove())
            &&& table.route(hooked.remove(), message) == Some(table.active)
        }),
{
}

/// The block alone decides the answer to a shutdown query: right after
/// a block is acquired the answer is to deny, right after it is released the
/// answer is to permit, whoever listens and whatever the query carries.
pub proof fn lemma_block_decides_answer<C>(
    state: InterceptorView<C>,
    reason: Seq<char>,
    message: Message,
)
    requires
        state.has_window(),
        kind_of(message.event, message.w_param) is QueryEndSession,
    ensures
        state.acquire(reason).dispatch(message) matches Dispatch::Answered { result, .. }
            && result == Answer::Deny.code(),
        state.release().dispatch(message) matches Dispatch::Answered { result, .. } && result
            == Answer::Permit.code(),
{
}

/// A shutdown query notifies exactly the registered listener, with the
/// query's second parameter as it came, and changes nothing in the answer.
pub proof fn lemma_query_notifies_listener<C>(state: InterceptorView<C>, message: Message)
    requires
        kind_of(message.event, message.w_param) is QueryEndSession,
    ensures
        state.dispatch(message) matches Dispatch::Answered { notification, result } && result
            == state.gate.answer().code() && (match state.callback {
            Some(callback) => notification matches Some(n) && *n.callback == callback
                && n.payload == message.l_param,
            None => notification is None,
        }),
{
}

/// Whether `message` asks if the session may end.
pub open spec fn is_query(message: Message) -> bool {
    kind_of(message.event, message.w_param) is QueryEndSession
}

/// The test [`is_query`] as a function value.
pub open spec fn queries() -> spec_fn(Message) -> bool {
    |message: Message| is_query(message)
}

/// What a query hands to the listener: its second parameter.
pub open spec fn payloads() -> spec_fn(Message) -> i64 {
    |message: Message| message.l_param as i64
}

/// The payloads that the listener is to be notified with, in this order,
/// when `messages` arrive one after the other while the interceptor is in
/// `state`.
pub open spec fn notified<C>(state: InterceptorView<C>, messages: Seq<Message>) -> Seq<i64>
    decreases messages.len(),
{
    if messages.len() == 0 {
        Seq::empty()
    } else {
        let earlier = notified(state, messages.drop_last());
        match state.dispatch(messages.last()) {
            Dispatch::Answered { notification: Some(n), .. } => earlier.push(n.payload),
            _ => earlier,
        }
    }
}

/// First in, first out: with a listener registered, the notifications are
/// the payloads of the shutdown queries among the messages, one for each, in
/// the order in which the queries arrived. Without a listener there are none.
pub proof fn lemma_notifications_in_order<C>(state: InterceptorView<C>, messages: Seq<Message>)
    ensures
        state.callback is Some ==> notified(state, messages) == messages.filter(
            queries(),
        ).map_values(payloads()),
        state.callback is None ==> notified(state, messages) == Seq::<i64>::empty(),
    decreases messages.len(),
{
    reveal(Seq::filter);
    if messages.len() == 0 {
        assert(messages.filter(queries()).map_values(payloads()) =~= Seq::<i64>::empty());
    } else {
        let earlier = messages.drop_last();
        let last = messages.last();
        lemma_notifications_in_order(state, earlier);
        if state.callback is Some {
            let kept = earlier.filter(queries());
            if is_query(last) {
                assert(messages.filter(queries()) == kept.push(last));
                assert(kept.push(last).map_values(payloads()) =~= kept.map_values(
                    payloads(),
                ).push(last.l_param as i64));
            } else {
                assert(messages.filter(queries()) == kept);
            }
        }
    }
}

/// Without a window every operation is refused and leaves the state as it
/// was, but for the callback that an installation registers in any case.
pub proof fn lemma_refused_without_window<C>(
    state: InterceptorView<C>,
    callback: Option<C>,
    reason: Seq<char>,
)
    requires
        !state.has_window(),
    ensures
        !state.accepts_install(),
        state.insert(callback).chain == state.chain,
        state.insert(callback).gate == state.gate,
        state.removal() == Removal::Refused,
        state.remove() == state,
        state.acquire(reason) == state,
        state.release() == state,
{
}

/// Before the first call no window is set.
pub proof fn lemma_initially_no_window<C>()
    ensures
        !InterceptorView::<C>::initial().has_window(),
        InterceptorView::<C>::initial().chain is Unhooked,
        !InterceptorView::<C>::initial().gate.blocking,
        InterceptorView::<C>::initial().callback is None,
{
}

} // verus!
