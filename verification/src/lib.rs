//! Interception of session-shutdown notifications for one top-level window,
//! and system proxy settings as plain values.

pub mod bridge;
pub mod chain;
pub mod event;
pub mod gate;
pub mod laws;
pub mod power;
pub mod stub;
pub mod sysproxy;
pub mod wide;
pub mod window;
