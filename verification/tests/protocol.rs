//! Scenarios driving the execution protocol with the statuses and values the
//! interpreter is documented to report for each chunk.

use lua_console::lua::{LuaErrorStatus, LuaIO};
use lua_console::protocol::{ChunkExecution, MachineAction};

// Raw status codes of the machine: success, runtime error, syntax error.
const RAW_OK: i32 = 0;
const RAW_ERRRUN: i32 = 2;
const RAW_ERRSYNTAX: i32 = 3;

struct IOReceiver {
    events: Vec<Vec<String>>,
}

impl LuaIO for IOReceiver {
    fn on_print(&mut self, values: Vec<String>) {
        self.events.push(values);
    }
}

fn strings(values: &[&str]) -> Vec<String> {
    values.iter().map(|v| String::from(*v)).collect()
}

#[test]
fn explicit_return_yields_both_values() {
    // execute("return 17, false") -> Ok(["17", "false"])
    let (mut exec, action) = ChunkExecution::new("return 17, false");
    assert_eq!(
        MachineAction::LoadText(String::from("return return 17, false")),
        action
    );

    // The doubled return does not compile; the chunk is retried verbatim.
    let action = exec.on_load_result(RAW_ERRSYNTAX);
    assert_eq!(
        MachineAction::DiscardThenLoadText(String::from("return 17, false")),
        action
    );

    let action = exec.on_load_result(RAW_OK);
    assert_eq!(MachineAction::RunLoaded, action);

    let action = exec.on_call_result(RAW_OK, 2);
    assert_eq!(MachineAction::TakeValues(2), action);

    let result = exec.on_values(strings(&["17", "false"]));
    assert_eq!(Ok(strings(&["17", "false"])), result);
    assert!(exec.is_finished());
    assert_eq!(0, exec.stack_depth());
}

#[test]
fn leftover_values_of_later_chunk_returned() {
    // execute("give_two = function() return 5, true end") -> Ok([]), then
    // execute("give_two()") -> Ok(["5", "true"])
    let (mut exec, _) = ChunkExecution::new("give_two = function() return 5, true end");
    // An assignment is no expression; only the verbatim form compiles.
    let _ = exec.on_load_result(RAW_ERRSYNTAX);
    let _ = exec.on_load_result(RAW_OK);
    let _ = exec.on_call_result(RAW_OK, 0);
    let result = exec.on_values(Vec::new());
    assert_eq!(Ok(Vec::new()), result);
    assert_eq!(0, exec.stack_depth());

    let (mut exec, action) = ChunkExecution::new("give_two()");
    assert_eq!(
        MachineAction::LoadText(String::from("return give_two()")),
        action
    );
    let action = exec.on_load_result(RAW_OK);
    assert_eq!(MachineAction::RunLoaded, action);
    let action = exec.on_call_result(RAW_OK, 2);
    assert_eq!(MachineAction::TakeValues(2), action);
    let result = exec.on_values(strings(&["5", "true"]));
    assert_eq!(Ok(strings(&["5", "true"])), result);
    assert_eq!(0, exec.stack_depth());

    // An assignment returns nothing; reading the variable back as an
    // expression returns its display string.
    let (mut exec, _) = ChunkExecution::new("x = 5");
    let _ = exec.on_load_result(RAW_ERRSYNTAX);
    let _ = exec.on_load_result(RAW_OK);
    let _ = exec.on_call_result(RAW_OK, 0);
    assert_eq!(Ok(Vec::new()), exec.on_values(Vec::new()));

    let (mut exec, _) = ChunkExecution::new("x");
    let _ = exec.on_load_result(RAW_OK);
    let _ = exec.on_call_result(RAW_OK, 1);
    assert_eq!(Ok(strings(&["5"])), exec.on_values(strings(&["5"])));

    // A bare expression list returns every value in order.
    let (mut exec, _) = ChunkExecution::new("5, nil, false, 'Hello'");
    let _ = exec.on_load_result(RAW_OK);
    let _ = exec.on_call_result(RAW_OK, 4);
    assert_eq!(
        Ok(strings(&["5", "nil", "false", "Hello"])),
        exec.on_values(strings(&["5", "nil", "false", "Hello"]))
    );
    assert_eq!(0, exec.stack_depth());
}

#[test]
fn print_of_a_variable_reaches_the_receiver() {
    // execute("x = 5") -> Ok([]), then execute("print(x)") -> Ok([]) with the
    // receiver having observed one event ["5"].
    let mut receiver = IOReceiver { events: Vec::new() };

    let (mut exec, _) = ChunkExecution::new("x = 5");
    let _ = exec.on_load_result(RAW_ERRSYNTAX);
    let _ = exec.on_load_result(RAW_OK);
    let _ = exec.on_call_result(RAW_OK, 0);
    assert_eq!(Ok(Vec::new()), exec.on_values(Vec::new()));
    assert!(receiver.events.is_empty());

    let (mut exec, _) = ChunkExecution::new("print(x)");
    let _ = exec.on_load_result(RAW_OK);
    receiver.on_print(strings(&["5"]));
    let _ = exec.on_call_result(RAW_OK, 0);
    assert_eq!(Ok(Vec::new()), exec.on_values(Vec::new()));

    assert_eq!(vec![strings(&["5"])], receiver.events);
}

#[test]
fn print_forwards_one_event_to_receiver() {
    // execute("print('a', 5, false, nil)") -> Ok([]), and the receiver sees
    // one output event ["a", "5", "false", "nil"] before the call returns.
    let mut receiver = IOReceiver { events: Vec::new() };

    let (mut exec, _) = ChunkExecution::new("print('a', 5, false, nil)");
    let action = exec.on_load_result(RAW_OK);
    assert_eq!(MachineAction::RunLoaded, action);

    // While the chunk runs, the machine calls the installed print binding,
    // which forwards the display strings of its arguments to the receiver.
    receiver.on_print(strings(&["a", "5", "false", "nil"]));

    let action = exec.on_call_result(RAW_OK, 0);
    assert_eq!(MachineAction::TakeValues(0), action);
    let result = exec.on_values(Vec::new());
    assert_eq!(Ok(Vec::new()), result);

    assert_eq!(vec![strings(&["a", "5", "false", "nil"])], receiver.events);
    assert_eq!(0, exec.stack_depth());
}

#[test]
fn failed_assertion_is_a_runtime_error() {
    // execute("assert(false, 'Failure message')") -> Err(RuntimeError, ...)
    let (mut exec, _) = ChunkExecution::new("assert(false, 'Failure message')");
    let _ = exec.on_load_result(RAW_OK);
    let action = exec.on_call_result(RAW_ERRRUN, 1);
    assert_eq!(MachineAction::TakeErrorMessage(1), action);

    let result = exec.on_error_message(String::from(
        "stdin:1: Failure message\nstack traceback: ...",
    ));
    let error = result.unwrap_err();
    assert_eq!(LuaErrorStatus::RuntimeError, error.status);
    assert!(error.message.contains("Failure message"));
    assert_eq!(0, exec.stack_depth());
}

#[test]
fn chunk_without_valid_form_is_a_syntax_error() {
    // execute("x = {]") -> Err(SyntaxError, message contains "unexpected symbol")
    let (mut exec, _) = ChunkExecution::new("x = {]");
    let action = exec.on_load_result(RAW_ERRSYNTAX);
    assert_eq!(
        MachineAction::DiscardThenLoadText(String::from("x = {]")),
        action
    );
    let action = exec.on_load_result(RAW_ERRSYNTAX);
    assert_eq!(MachineAction::TakeErrorMessage(1), action);

    let result = exec.on_error_message(String::from(
        "[string \"x = {]\"]:1: unexpected symbol near ']'",
    ));
    let error = result.unwrap_err();
    assert_eq!(LuaErrorStatus::SyntaxError, error.status);
    assert!(error.message.contains("unexpected symbol"));
    assert_eq!(0, exec.stack_depth());
}

#[test]
fn stack_returns_to_baseline_for_any_interleaving() {
    // Valid and invalid chunks, interleaved against one handle: after each
    // execution the accounted stack depth stands at the baseline again.
    let mut depths: Vec<usize> = Vec::new();

    let (mut exec, _) = ChunkExecution::new("return 1");
    let _ = exec.on_load_result(RAW_ERRSYNTAX);
    let _ = exec.on_load_result(RAW_OK);
    let _ = exec.on_call_result(RAW_OK, 1);
    let _ = exec.on_values(strings(&["1"]));
    depths.push(exec.stack_depth());

    let (mut exec, _) = ChunkExecution::new("x = {]");
    let _ = exec.on_load_result(RAW_ERRSYNTAX);
    let _ = exec.on_load_result(RAW_ERRSYNTAX);
    let _ = exec.on_error_message(String::from("unexpected symbol"));
    depths.push(exec.stack_depth());

    let (mut exec, _) = ChunkExecution::new("error('boom')");
    let _ = exec.on_load_result(RAW_OK);
    let _ = exec.on_call_result(RAW_ERRRUN, 1);
    let _ = exec.on_error_message(String::from("boom"));
    depths.push(exec.stack_depth());

    let (mut exec, _) = ChunkExecution::new("'fine'");
    let _ = exec.on_load_result(RAW_OK);
    let _ = exec.on_call_result(RAW_OK, 1);
    let _ = exec.on_values(strings(&["fine"]));
    depths.push(exec.stack_depth());

    assert_eq!(vec![0, 0, 0, 0], depths);
}

#[test]
fn literal_display_strings_pass_through_unchanged() {
    // A chunk returning literals yields display strings equal to their
    // canonical textual form, exactly as the machine rendered them.
    let (mut exec, _) = ChunkExecution::new("return false, nil");
    let _ = exec.on_load_result(RAW_ERRSYNTAX);
    let _ = exec.on_load_result(RAW_OK);
    let _ = exec.on_call_result(RAW_OK, 2);
    let result = exec.on_values(strings(&["false", "nil"]));
    assert_eq!(Ok(strings(&["false", "nil"])), result);
}

#[test]
fn suspension_reaching_top_level_is_an_error() {
    // A yield with nothing to resume it is reported as an error status.
    let (mut exec, _) = ChunkExecution::new("coroutine.yield()");
    let _ = exec.on_load_result(RAW_OK);
    let action = exec.on_call_result(1, 1);
    assert_eq!(MachineAction::TakeErrorMessage(1), action);
    let result = exec.on_error_message(String::from("attempt to yield from outside a coroutine"));
    assert_eq!(LuaErrorStatus::Yield, result.unwrap_err().status);
    assert_eq!(0, exec.stack_depth());
}
