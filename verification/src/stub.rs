//! The interface for platforms that never ask a window whether the session
//! may end: every operation exists, succeeds and does nothing.

use vstd::prelude::*;
use crate::window::WindowHandle;

verus! {

/// Accepts a window handle and forgets it.
pub fn set_main_window_handle(h_wnd: WindowHandle) {
    let _ = h_wnd;
}

/// Accepts a callback and drops it: no hook is installed and the callback is
/// never invoked.
pub fn insert_wnd_proc_hook<C>(callback: C) {
    let _ = callback;
}

/// There is never a hook to remove, which counts as success.
pub fn remove_wnd_proc_hook() -> (ok: bool)
    ensures
        ok,
{
    true
}

/// Accepts a reason and registers it nowhere, which counts as success.
pub fn acquire_shutdown_block(reason: &str) -> (ok: bool)
    ensures
        ok,
{
    let _ = reason;
    true
}

/// There is never a block to release, which counts as success.
pub fn release_shutdown_block() -> (ok: bool)
    ensures
        ok,
{
    true
}

} // verus!
