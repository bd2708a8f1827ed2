use shutdown_handler::bridge::EventBridge;
use shutdown_handler::chain::{ChainState, ProcChain, Procedure};
use shutdown_handler::event::{
    classify, Answer, EventKind, CANCELLED_RESULT, WM_ENDSESSION, WM_QUERYENDSESSION,
};
use shutdown_handler::gate::BlockGate;
use shutdown_handler::stub;
use shutdown_handler::window::{WindowHandle, WindowRegistry};

#[test]
fn null_handle_is_zero() {
    assert_eq!(WindowHandle::null(), WindowHandle(0));
    assert!(!WindowHandle::null().is_set());
    assert!(WindowHandle(1).is_set());
    assert!(WindowHandle(-1).is_set());
}

#[test]
fn registry_starts_empty_and_overwrites() {
    let mut registry = WindowRegistry::new();
    assert_eq!(registry.handle(), WindowHandle(0));
    assert_eq!(registry.active(), None);
    registry.set(WindowHandle(10));
    assert_eq!(registry.handle(), WindowHandle(10));
    assert_eq!(registry.active(), Some(WindowHandle(10)));
    registry.set(WindowHandle(11));
    assert_eq!(registry.active(), Some(WindowHandle(11)));
    registry.set(WindowHandle(0));
    assert_eq!(registry.active(), None);
}

#[test]
fn chain_walks_through_its_states() {
    let mut chain = ProcChain::new();
    assert_eq!(chain.state(), ChainState::Unhooked);
    assert_eq!(chain.previous(), None);
    assert!(!chain.complete_install(Procedure(1)));
    assert_eq!(chain.take_previous(), None);
    assert!(chain.begin_install());
    assert_eq!(chain.state(), ChainState::Installing);
    assert!(!chain.begin_install());
    assert_eq!(chain.take_previous(), None);
    assert_eq!(chain.state(), ChainState::Installing);
    assert!(chain.complete_install(Procedure(2)));
    assert_eq!(chain.state(), ChainState::Hooked(Procedure(2)));
    assert_eq!(chain.previous(), Some(Procedure(2)));
    assert!(!chain.begin_install());
    assert!(!chain.complete_install(Procedure(3)));
    assert_eq!(chain.previous(), Some(Procedure(2)));
    assert_eq!(chain.take_previous(), Some(Procedure(2)));
    assert_eq!(chain.state(), ChainState::Unhooked);
    assert_eq!(chain.take_previous(), None);
}

#[test]
fn bridge_holds_one_listener() {
    let mut bridge: EventBridge<String> = EventBridge::new();
    assert!(bridge.callback().is_none());
    assert!(bridge.notify(1).is_none());
    bridge.register(String::from("a"));
    bridge.register(String::from("b"));
    assert_eq!(bridge.callback(), Some(&String::from("b")));
    let notification = bridge.notify(-9).unwrap();
    assert_eq!(notification.callback, "b");
    assert_eq!(notification.payload, -9);
    bridge.clear();
    assert!(bridge.callback().is_none());
    assert!(bridge.notify(1).is_none());
}

#[test]
fn gate_blocks_between_acquire_and_release() {
    let mut gate = BlockGate::new();
    assert!(!gate.is_blocking());
    assert_eq!(gate.reason(), "");
    assert_eq!(gate.answer(), Answer::Permit);
    gate.acquire("one");
    assert!(gate.is_blocking());
    assert_eq!(gate.reason(), "one");
    assert_eq!(gate.answer(), Answer::Deny);
    gate.acquire("two");
    assert_eq!(gate.reason(), "two");
    assert_eq!(gate.answer(), Answer::Deny);
    gate.release();
    assert!(!gate.is_blocking());
    assert_eq!(gate.reason(), "");
    assert_eq!(gate.answer(), Answer::Permit);
    gate.release();
    assert_eq!(gate.answer(), Answer::Permit);
}

#[test]
fn answers_have_their_codes() {
    assert_eq!(Answer::Deny.result(), 0);
    assert_eq!(Answer::Permit.result(), 1);
    assert_eq!(CANCELLED_RESULT, 0);
}

#[test]
fn messages_are_classified() {
    assert_eq!(WM_QUERYENDSESSION, 0x11);
    assert_eq!(WM_ENDSESSION, 0x16);
    assert_eq!(classify(0x11, 0), EventKind::QueryEndSession);
    assert_eq!(classify(0x11, 7), EventKind::QueryEndSession);
    assert_eq!(classify(0x16, 0), EventKind::EndSessionCancelled);
    assert_eq!(classify(0x16, 1), EventKind::Other);
    assert_eq!(classify(0x16, usize::MAX), EventKind::Other);
    assert_eq!(classify(0x0F, 0), EventKind::Other);
    assert_eq!(classify(0, 0), EventKind::Other);
    assert_eq!(classify(u32::MAX, 0), EventKind::Other);
}

#[test]
fn stub_operations_succeed_in_any_order() {
    assert!(stub::release_shutdown_block());
    assert!(stub::remove_wnd_proc_hook());
    stub::insert_wnd_proc_hook("callback");
    assert!(stub::acquire_shutdown_block("reason"));
    assert!(stub::acquire_shutdown_block(""));
    stub::insert_wnd_proc_hook(5u8);
    assert!(stub::remove_wnd_proc_hook());
    assert!(stub::remove_wnd_proc_hook());
    stub::set_main_window_handle(WindowHandle(4));
    assert!(stub::release_shutdown_block());
    assert!(stub::acquire_shutdown_block("again"));
}

#[test]
fn message_identifiers_are_those_of_the_operating_system() {
    assert_eq!(WM_QUERYENDSESSION, windows::Win32::UI::WindowsAndMessaging::WM_QUERYENDSESSION);
    assert_eq!(WM_ENDSESSION, windows::Win32::UI::WindowsAndMessaging::WM_ENDSESSION);
}

#[test]
fn null_handle_is_the_default_window_handle() {
    assert_eq!(WindowHandle::null().0, windows::Win32::Foundation::HWND::default().0);
}
