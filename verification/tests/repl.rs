//! The console controller's transition table on concrete messages.

use lua_console::lua::{LuaError, LuaErrorStatus};
use lua_console::repl::{joined_with_trailing, key_to_message, Cmd, KeyInput, Msg, Repl};

fn strings(values: &[&str]) -> Vec<String> {
    values.iter().map(|v| String::from(*v)).collect()
}

#[test]
fn add_char_grows_the_buffer() {
    let mut repl = Repl::new();
    assert_eq!("", repl.input_buffer());

    assert_eq!(Cmd::Nothing, repl.update(Msg::AddChar('x')));
    assert_eq!(Cmd::Nothing, repl.update(Msg::AddChar(' ')));
    assert_eq!(Cmd::Nothing, repl.update(Msg::AddChar('=')));
    assert_eq!("x =", repl.input_buffer());
}

#[test]
fn backspace_removes_the_last_character() {
    let mut repl = Repl::new();
    let _ = repl.update(Msg::AddChar('a'));
    let _ = repl.update(Msg::AddChar('b'));

    assert_eq!(Cmd::Nothing, repl.update(Msg::Backspace));
    assert_eq!("a", repl.input_buffer());

    let _ = repl.update(Msg::Backspace);
    assert_eq!("", repl.input_buffer());

    // Backspace on an empty buffer stays a no-op.
    assert_eq!(Cmd::Nothing, repl.update(Msg::Backspace));
    assert_eq!("", repl.input_buffer());
}

#[test]
fn submit_takes_and_clears_the_buffer() {
    let mut repl = Repl::new();
    let _ = repl.update(Msg::AddChar('x'));
    let _ = repl.update(Msg::AddChar('='));
    let _ = repl.update(Msg::AddChar('5'));

    let cmd = repl.update(Msg::Submit);
    assert_eq!(Cmd::ExecuteChunk(String::from("x=5")), cmd);
    assert_eq!("", repl.input_buffer());
}

#[test]
fn reset_input_clears_the_buffer() {
    let mut repl = Repl::new();
    let _ = repl.update(Msg::AddChar('q'));

    assert_eq!(Cmd::Nothing, repl.update(Msg::ResetInput));
    assert_eq!("", repl.input_buffer());
}

#[test]
fn completed_execution_displays_joined_values() {
    let mut repl = Repl::new();
    let cmd = repl.update(Msg::ExecutionCompleted(Ok(strings(&["17", "false"]))));
    assert_eq!(Cmd::DisplayOutput(String::from("17   false   ")), cmd);
}

#[test]
fn completed_execution_with_no_values_displays_nothing() {
    let mut repl = Repl::new();
    let cmd = repl.update(Msg::ExecutionCompleted(Ok(Vec::new())));
    assert_eq!(Cmd::DisplayOutput(String::new()), cmd);
}

#[test]
fn failed_execution_displays_the_error_message() {
    let mut repl = Repl::new();
    let error = LuaError {
        status: LuaErrorStatus::RuntimeError,
        message: String::from("stdin:1: boom"),
    };
    let cmd = repl.update(Msg::ExecutionCompleted(Err(error)));
    assert_eq!(
        Cmd::DisplayErrorMessage(String::from("stdin:1: boom")),
        cmd
    );
}

#[test]
fn clear_screen_and_quit_commands() {
    let mut repl = Repl::new();
    assert_eq!(Cmd::ClearScreen, repl.update(Msg::ClearScreen));
    assert_eq!(Cmd::Quit, repl.update(Msg::Quit));
}

#[test]
fn history_messages_are_safe_no_ops() {
    let mut repl = Repl::new();
    let _ = repl.update(Msg::AddChar('h'));

    assert_eq!(Cmd::Nothing, repl.update(Msg::GoBackInHistory));
    assert_eq!(Cmd::Nothing, repl.update(Msg::GoForwardInHistory));
    assert_eq!("h", repl.input_buffer());
}

#[test]
fn key_bindings_map_to_messages() {
    assert_eq!(
        Some(Msg::ResetInput),
        key_to_message(&KeyInput::Ctrl('c'))
    );
    assert_eq!(
        Some(Msg::ClearScreen),
        key_to_message(&KeyInput::Ctrl('l'))
    );
    assert_eq!(Some(Msg::Quit), key_to_message(&KeyInput::Ctrl('z')));
    assert_eq!(Some(Msg::Backspace), key_to_message(&KeyInput::Backspace));
    assert_eq!(
        Some(Msg::GoForwardInHistory),
        key_to_message(&KeyInput::Down)
    );
    assert_eq!(Some(Msg::GoBackInHistory), key_to_message(&KeyInput::Up));
    assert_eq!(Some(Msg::Submit), key_to_message(&KeyInput::Char('\n')));
    assert_eq!(Some(Msg::AddChar('g')), key_to_message(&KeyInput::Char('g')));
    assert_eq!(None, key_to_message(&KeyInput::Ctrl('q')));
    assert_eq!(None, key_to_message(&KeyInput::Unsupported));
}

#[test]
fn joining_values_appends_the_separator_after_each() {
    assert_eq!(
        "5  nil  ",
        joined_with_trailing(&strings(&["5", "nil"]), "  ")
    );
    assert_eq!("", joined_with_trailing(&Vec::new(), "  "));
}
