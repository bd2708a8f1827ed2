//! The bridge from the message-loop thread to the application's listener.

use vstd::prelude::*;

verus! {

/// One shutdown-query notification to hand to the listener's queue.
pub struct Notification<'a, C> {
    /// The listener registered when the query arrived.
    pub callback: &'a C,
    /// The 64-bit parameter that came with the query, passed through unchanged.
    pub payload: i64,
}

/// The slot of the application's shutdown-query listener.
///
/// The slot holds at most one listener: registering overwrites. The bridge
/// never waits for the listener; it only names whom to notify and with what.
pub struct EventBridge<C> {
    slot: Option<C>,
}

impl<C> View for EventBridge<C> {
    type V = Option<C>;

    closed spec fn view(&self) -> Option<C> {
        self.slot
    }
}

impl<C> EventBridge<C> {
    /// A bridge with an empty slot.
    pub fn new() -> (bridge: EventBridge<C>)
        ensures
            bridge@ is None,
    {
        EventBridge { slot: None }
    }

    /// Puts `callback` into the slot, replacing any listener that was there.
    pub fn register(&mut self, callback: C)
        ensures
            final(self)@ == Some(callback),
    {
        self.slot = Some(callback);
    }

    /// Empties the slot.
    pub fn clear(&mut self)
        ensures
            final(self)@ is None,
    {
        self.slot = None;
    }

    /// The registered listener, if there is one.
    pub fn callback(&self) -> (callback: Option<&C>)
        ensures
            callback == (match self@ {
                Some(c) => Some(&c),
                None => None,
            }),
    {
        self.slot.as_ref()
    }

    /// The notification that a query carrying `payload` gives rise to: one for
    /// the registered listener, none while the slot is empty.
    pub fn notify(&self, payload: i64) -> (notification: Option<Notification<'_, C>>)
        ensures
            notification == notification_for(self@, payload),
    {
        match &self.slot {
            Some(callback) => Some(Notification { callback, payload }),
            None => None,
        }
    }
}

/// The notification owed to the listener in `slot` for a query carrying `payload`.
pub open spec fn notification_for<'a, C>(slot: Option<C>, payload: i64) -> Option<
    Notification<'a, C>,
> {
    match slot {
        Some(callback) => Some(Notification { callback: &callback, payload }),
        None => None,
    }
}

} // verus!
