//! The registry of the one window the interceptor works on.

use vstd::prelude::*;

verus! {

/// Opaque identifier of a top-level window, as the operating system hands it out.
///
/// The value zero is the null handle: it names no window.
#[derive(Clone, Copy, Debug, PartialEq, Eq, Structural)]
pub struct WindowHandle(pub isize);

impl WindowHandle {
    /// Whether this is the null handle.
    pub open spec fn is_null(self) -> bool {
        self.0 == 0
    }

    /// The null handle.
    pub fn null() -> (handle: WindowHandle)
        ensures
            handle == WindowHandle(0),
    {
        WindowHandle(0)
    }

    /// Whether this handle names a window, that is, differs from the null handle.
    pub fn is_set(&self) -> (set: bool)
        ensures
            set == !self.is_null(),
    {
        self.0 != 0
    }
}

/// Holds the single window identifier that every other component works on.
///
/// A fresh registry holds the null handle. The handle is never validated and
/// never removed, only overwritten.
pub struct WindowRegistry {
    handle: WindowHandle,
}

impl View for WindowRegistry {
    type V = WindowHandle;

    closed spec fn view(&self) -> WindowHandle {
        self.handle
    }
}

impl WindowRegistry {
    /// A registry that holds no window yet.
    pub fn new() -> (registry: WindowRegistry)
        ensures
            registry@ == WindowHandle(0),
    {
        WindowRegistry { handle: WindowHandle(0) }
    }

    /// Stores `handle` unconditionally, replacing what was stored before.
    pub fn set(&mut self, handle: WindowHandle)
        ensures
            final(self)@ == handle,
    {
        self.handle = handle;
    }

    /// The stored handle, null or not.
    pub fn handle(&self) -> (handle: WindowHandle)
        ensures
            handle == self@,
    {
        self.handle
    }

    /// The stored handle if it names a window, `None` while it is null.
    pub fn active(&self) -> (window: Option<WindowHandle>)
        ensures
            window == (if self@.is_null() { None } else { Some(self@) }),
    {
        if self.handle.is_set() {
            Some(self.handle)
        } else {
            None
        }
    }
}

} // verus!
