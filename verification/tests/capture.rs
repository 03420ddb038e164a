//! The scoped output-capture discipline on concrete states.

use lua_console::capture::{CaptureState, PrintBinding};

#[test]
fn registration_binds_a_live_token() {
    let mut state = CaptureState::library_default();
    assert_eq!(PrintBinding::LibraryDefault, state.binding);
    assert!(!state.token_live);

    state.register();
    assert_eq!(PrintBinding::Captured, state.binding);
    assert!(state.token_live);
}

#[test]
fn release_leaves_no_residual_token() {
    let mut state = CaptureState::library_default();
    state.register();
    state.unregister();

    assert_eq!(PrintBinding::Inert, state.binding);
    assert!(!state.token_live);
}

#[test]
fn repeated_paired_use_is_idempotent() {
    let mut once = CaptureState::library_default();
    once.register();
    once.unregister();

    let mut many = CaptureState::library_default();
    for _ in 0..5 {
        many.register();
        many.unregister();
    }

    assert_eq!(once, many);
    assert!(!many.token_live);
}

#[test]
fn release_is_safe_on_every_exit_path() {
    // A second release, as a guard that already ran would perform, changes
    // nothing.
    let mut state = CaptureState::library_default();
    state.register();
    state.unregister();
    let after_first = state;
    state.unregister();
    assert_eq!(after_first, state);
}
