//! The interactive console controller: a pure state machine over keystroke
//! messages. Each message updates the controller's state and yields a
//! command describing the one side effect the driving loop is to perform;
//! the controller itself performs none.

use vstd::prelude::*;
use vstd::string::StringExecFns;
use crate::lua::LuaError;

verus! {

/// External events that update the state of the console and ask for effects.
#[derive(PartialEq, Debug)]
pub enum Msg {
    AddChar(char),
    Backspace,
    ClearScreen,
    ExecutionCompleted(Result<Vec<String>, LuaError>),
    GoBackInHistory,
    GoForwardInHistory,
    Quit,
    ResetInput,
    Submit,
}

/// Descriptions of side effects to be performed by the driving loop.
#[derive(PartialEq, Debug)]
pub enum Cmd {
    ClearScreen,
    DisplayErrorMessage(String),
    DisplayOutput(String),
    ExecuteChunk(String),
    Nothing,
    Quit,
}

/// A key event read from the terminal, as far as the console distinguishes
/// them.
#[derive(PartialEq, Eq, Debug, Clone, Copy)]
pub enum KeyInput {
    Backspace,
    Up,
    Down,
    Char(char),
    Ctrl(char),
    Unsupported,
}

/// The key bindings of the console: Ctrl-C resets the input line, Ctrl-L
/// clears the screen, Ctrl-Z quits, Backspace deletes, Enter submits, Up and
/// Down step through history, and any other character joins the buffer.
pub open spec fn spec_key_to_message(key: KeyInput) -> Option<Msg> {
    match key {
        KeyInput::Ctrl(c) => if c == 'c' {
            Some(Msg::ResetInput)
        } else if c == 'l' {
            Some(Msg::ClearScreen)
        } else if c == 'z' {
            Some(Msg::Quit)
        } else {
            None
        },
        KeyInput::Backspace => Some(Msg::Backspace),
        KeyInput::Down => Some(Msg::GoForwardInHistory),
        KeyInput::Up => Some(Msg::GoBackInHistory),
        KeyInput::Char(c) => if c == '\n' {
            Some(Msg::Submit)
        } else {
            Some(Msg::AddChar(c))
        },
        KeyInput::Unsupported => None,
    }
}

/// Converts the given key event to the corresponding message. Returns
/// nothing when the key event is not supported.
pub fn key_to_message(key: &KeyInput) -> (m: Option<Msg>)
    ensures
        m == spec_key_to_message(*key),
{
    match key {
        KeyInput::Ctrl(c) => {
            if *c == 'c' {
                Some(Msg::ResetInput)
            } else if *c == 'l' {
                Some(Msg::ClearScreen)
            } else if *c == 'z' {
                Some(Msg::Quit)
            } else {
                None
            }
        },
        KeyInput::Backspace => Some(Msg::Backspace),
        KeyInput::Down => Some(Msg::GoForwardInHistory),
        KeyInput::Up => Some(Msg::GoBackInHistory),
        KeyInput::Char(c) => {
            if *c == '\n' {
                Some(Msg::Submit)
            } else {
                Some(Msg::AddChar(*c))
            }
        },
        KeyInput::Unsupported => None,
    }
}

/// The display string for a list of returned values: each value followed by
/// the separator, in order.
pub open spec fn spec_output_display(values: Seq<Seq<char>>, sep: Seq<char>) -> Seq<char>
    decreases values.len(),
{
    if values.len() == 0 {
        Seq::empty()
    } else {
        spec_output_display(values.drop_last(), sep) + values.last() + sep
    }
}

/// Joins the given values into one display string, each value followed by
/// the separator.
pub fn joined_with_trailing(values: &Vec<String>, sep: &str) -> (r: String)
    ensures
        r@ == spec_output_display(values.deep_view(), sep@),
{
    let mut display = String::new();
    let n = values.len();
    let mut i: usize = 0;
    while i < n
        invariant
            i <= n,
            n == values.len(),
            display@ == spec_output_display(values.deep_view().take(i as int), sep@),
        decreases n - i,
    {
        display.append(values[i].as_str());
        display.append(sep);
        proof {
            assert(values.deep_view().take(i + 1 as int).drop_last() =~= values.deep_view().take(
                i as int,
            ));
            assert(values.deep_view().take(i + 1 as int).last() == values.deep_view()[i as int]);
        }
        i += 1;
    }
    proof {
        assert(values.deep_view().take(n as int) =~= values.deep_view());
    }
    display
}

/// Relies on String::push: appends exactly the given character at the end.
#[verifier::external_body]
fn push_char(s: &mut String, c: char)
    ensures
        final(s)@ == old(s)@.push(c),
{
    s.push(c);
}

/// Relies on String::pop: removes and returns the last character; an empty
/// string stays empty and yields nothing.
#[verifier::external_body]
fn pop_char(s: &mut String) -> (r: Option<char>)
    ensures
        old(s)@.len() == 0 ==> r is None && final(s)@ == old(s)@,
        old(s)@.len() > 0 ==> r == Some(old(s)@.last()) && final(s)@ == old(s)@.drop_last(),
{
    s.pop()
}

/// Contains the state of the console: the line being edited, the logs of
/// submitted inputs and produced outputs, and the history cursor (a reserved
/// extension point; no message moves it yet).
pub struct Repl {
    input_buffer: String,
    inputs: Vec<String>,
    outputs: Vec<String>,
    input_history_index: Option<usize>,
}

/// Everything but the input buffer is the same in both states.
pub open spec fn only_buffer_changed(pre: Repl, post: Repl) -> bool {
    &&& post.inputs_view() == pre.inputs_view()
    &&& post.outputs_view() == pre.outputs_view()
    &&& post.history_index() == pre.history_index()
}

/// Both states are the same.
pub open spec fn repl_unchanged(pre: Repl, post: Repl) -> bool {
    &&& post.buffer_view() == pre.buffer_view()
    &&& only_buffer_changed(pre, post)
}

impl Repl {
    /// The line being edited.
    pub closed spec fn buffer_view(&self) -> Seq<char> {
        self.input_buffer@
    }

    /// The log of submitted inputs.
    pub closed spec fn inputs_view(&self) -> Seq<Seq<char>> {
        self.inputs.deep_view()
    }

    /// The log of produced outputs.
    pub closed spec fn outputs_view(&self) -> Seq<Seq<char>> {
        self.outputs.deep_view()
    }

    /// The history cursor.
    pub closed spec fn history_index(&self) -> Option<usize> {
        self.input_history_index
    }

    /// The line being edited, for the driving loop to render.
    pub fn input_buffer(&self) -> (r: &String)
        ensures
            r@ == self.buffer_view(),
    {
        &self.input_buffer
    }

    /// The initial state: empty buffer, empty logs, no history cursor.
    pub fn new() -> (r: Repl)
        ensures
            r.buffer_view() == Seq::<char>::empty(),
            r.inputs_view() == Seq::<Seq<char>>::empty(),
            r.outputs_view() == Seq::<Seq<char>>::empty(),
            r.history_index() is None,
    {
        let r = Repl {
            input_buffer: String::new(),
            inputs: Vec::new(),
            outputs: Vec::new(),
            input_history_index: None,
        };
        proof {
            assert(r.inputs_view() =~= Seq::<Seq<char>>::empty());
            assert(r.outputs_view() =~= Seq::<Seq<char>>::empty());
        }
        r
    }

    /// Appends the character to the input buffer.
    pub fn on_add_char(&mut self, c: char) -> (cmd: Cmd)
        ensures
            final(self).buffer_view() == old(self).buffer_view().push(c),
            only_buffer_changed(*old(self), *final(self)),
            cmd is Nothing,
    {
        push_char(&mut self.input_buffer, c);
        Cmd::Nothing
    }

    /// Asks the driving loop to clear the screen; the state is unchanged.
    pub fn on_clear_screen(&mut self) -> (cmd: Cmd)
        ensures
            repl_unchanged(*old(self), *final(self)),
            cmd is ClearScreen,
    {
        Cmd::ClearScreen
    }

    /// Removes the last character of the input buffer, if any.
    pub fn on_backspace(&mut self) -> (cmd: Cmd)
        ensures
            old(self).buffer_view().len() == 0 ==> final(self).buffer_view() == old(
                self,
            ).buffer_view(),
            old(self).buffer_view().len() > 0 ==> final(self).buffer_view() == old(
                self,
            ).buffer_view().drop_last(),
            only_buffer_changed(*old(self), *final(self)),
            cmd is Nothing,
    {
        pop_char(&mut self.input_buffer);
        Cmd::Nothing
    }

    /// Asks the driving loop to display the error's message; the state is
    /// unchanged.
    pub fn on_execution_error(&mut self, error: LuaError) -> (cmd: Cmd)
        ensures
            repl_unchanged(*old(self), *final(self)),
            cmd matches Cmd::DisplayErrorMessage(m) && m == error.message,
    {
        Cmd::DisplayErrorMessage(error.message)
    }

    /// Reserved for history recall; a safe no-op until specified.
    pub fn on_go_back_in_history(&mut self) -> (cmd: Cmd)
        ensures
            repl_unchanged(*old(self), *final(self)),
            cmd is Nothing,
    {
        Cmd::Nothing
    }

    /// Reserved for history recall; a safe no-op until specified.
    pub fn on_go_forward_in_history(&mut self) -> (cmd: Cmd)
        ensures
            repl_unchanged(*old(self), *final(self)),
            cmd is Nothing,
    {
        Cmd::Nothing
    }

    /// Clears the input buffer.
    pub fn on_reset_input(&mut self) -> (cmd: Cmd)
        ensures
            final(self).buffer_view() == Seq::<char>::empty(),
            only_buffer_changed(*old(self), *final(self)),
            cmd is Nothing,
    {
        self.input_buffer = String::new();
        Cmd::Nothing
    }

    /// Asks the driving loop to quit; the state is unchanged.
    pub fn on_quit(&mut self) -> (cmd: Cmd)
        ensures
            repl_unchanged(*old(self), *final(self)),
            cmd is Quit,
    {
        Cmd::Quit
    }

    /// Takes and clears the input buffer, and asks the driving loop to
    /// execute it as a chunk.
    pub fn on_submit(&mut self) -> (cmd: Cmd)
        ensures
            final(self).buffer_view() == Seq::<char>::empty(),
            only_buffer_changed(*old(self), *final(self)),
            cmd matches Cmd::ExecuteChunk(chunk) && chunk@ == old(self).buffer_view(),
    {
        let chunk = self.input_buffer.clone();
        self.input_buffer = String::new();
        Cmd::ExecuteChunk(chunk)
    }

    /// Appends the returned values to the output log and asks the driving
    /// loop to display them joined into one line.
    pub fn on_values_returned(&mut self, values: Vec<String>) -> (cmd: Cmd)
        ensures
            final(self).buffer_view() == old(self).buffer_view(),
            final(self).inputs_view() == old(self).inputs_view(),
            final(self).history_index() == old(self).history_index(),
            final(self).outputs_view() == old(self).outputs_view() + values.deep_view(),
            cmd matches Cmd::DisplayOutput(out) && out@ == spec_output_display(
                values.deep_view(),
                "   "@,
            ),
    {
        let output_display = joined_with_trailing(&values, "   ");
        let mut values = values;
        let ghost values_view = values.deep_view();
        self.outputs.append(&mut values);
        proof {
            assert(final(self).outputs_view() =~= old(self).outputs_view() + values_view);
        }
        Cmd::DisplayOutput(output_display)
    }

    /// Updates the console's state in response to the given message by
    /// mutating it in place. Returns a command describing the one effect to
    /// be performed: the full transition table of the console.
    pub fn update(&mut self, msg: Msg) -> (cmd: Cmd)
        ensures
            msg matches Msg::AddChar(c) ==> final(self).buffer_view() == old(
                self,
            ).buffer_view().push(c) && only_buffer_changed(*old(self), *final(self))
                && cmd is Nothing,
            msg is Backspace ==> {
                &&& old(self).buffer_view().len() == 0 ==> final(self).buffer_view() == old(
                    self,
                ).buffer_view()
                &&& old(self).buffer_view().len() > 0 ==> final(self).buffer_view() == old(
                    self,
                ).buffer_view().drop_last()
                &&& only_buffer_changed(*old(self), *final(self))
                &&& cmd is Nothing
            },
            msg is ClearScreen ==> repl_unchanged(*old(self), *final(self)) && cmd is ClearScreen,
            msg matches Msg::ExecutionCompleted(Ok(values)) ==> {
                &&& final(self).buffer_view() == old(self).buffer_view()
                &&& final(self).inputs_view() == old(self).inputs_view()
                &&& final(self).history_index() == old(self).history_index()
                &&& final(self).outputs_view() == old(self).outputs_view() + values.deep_view()
                &&& cmd matches Cmd::DisplayOutput(out) && out@ == spec_output_display(
                    values.deep_view(),
                    "   "@,
                )
            },
            msg matches Msg::ExecutionCompleted(Err(error)) ==> {
                &&& repl_unchanged(*old(self), *final(self))
                &&& cmd matches Cmd::DisplayErrorMessage(m) && m == error.message
            },
            msg is GoBackInHistory ==> repl_unchanged(*old(self), *final(self)) && cmd is Nothing,
            msg is GoForwardInHistory ==> repl_unchanged(*old(self), *final(self))
                && cmd is Nothing,
            msg is ResetInput ==> final(self).buffer_view() == Seq::<char>::empty()
                && only_buffer_changed(*old(self), *final(self)) && cmd is Nothing,
            msg is Quit ==> repl_unchanged(*old(self), *final(self)) && cmd is Quit,
            msg is Submit ==> final(self).buffer_view() == Seq::<char>::empty()
                && only_buffer_changed(*old(self), *final(self)) && (
            cmd matches Cmd::ExecuteChunk(chunk) && chunk@ == old(self).buffer_view()),
    {
        match msg {
            Msg::AddChar(c) => self.on_add_char(c),
            Msg::Backspace => self.on_backspace(),
            Msg::ClearScreen => self.on_clear_screen(),
            Msg::ExecutionCompleted(Ok(return_values)) => self.on_values_returned(return_values),
            Msg::ExecutionCompleted(Err(error)) => self.on_execution_error(error),
            Msg::GoBackInHistory => self.on_go_back_in_history(),
            Msg::GoForwardInHistory => self.on_go_forward_in_history(),
            Msg::ResetInput => self.on_reset_input(),
            Msg::Quit => self.on_quit(),
            Msg::Submit => self.on_submit(),
        }
    }
}

} // verus!
