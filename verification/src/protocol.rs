//! The stack-discipline execution protocol: one chunk is compiled (first as
//! an expression, then verbatim), run under a protected call, and its results
//! or its diagnostic are marshaled off the machine's value stack.
//!
//! The machine itself is driven by an unverified loop outside this crate.
//! This module holds every decision of that protocol as a state machine: each
//! event method consumes what the machine reported, returns the next
//! [`MachineAction`] to perform, and accounts for the machine's stack depth
//! above the baseline recorded at the start of the call, so that the depth is
//! proved to return to the baseline on every path, success or failure.

use vstd::prelude::*;
use crate::lua::{
    LuaError, LuaErrorStatus, LuaRcode, error_status_of, spec_error_status, spec_rcode_from_raw,
    spec_with_return, with_return,
};

verus! {

/// What the driving loop must ask of the machine next.
#[derive(PartialEq, Eq, Debug)]
pub enum MachineAction {
    /// Compile the given text; the machine leaves exactly one value on the
    /// stack: the compiled chunk on success, the diagnostic on failure.
    LoadText(String),
    /// Pop the single value the failed compilation left, then compile the
    /// given text as above.
    DiscardThenLoadText(String),
    /// Run the compiled chunk on top of the stack under a protected call with
    /// a message handler installed beneath it: the chunk is consumed, and the
    /// machine leaves its results (on success) or one error value (on
    /// failure).
    RunLoaded,
    /// Convert each of the given number of values above the baseline to its
    /// display string, left to right, then pop them all.
    TakeValues(usize),
    /// Convert the value on top of the stack to its display string, then pop
    /// all of the given number of values above the baseline.
    TakeErrorMessage(usize),
}

/// Where one execution stands between two machine events.
#[derive(PartialEq, Eq, Debug, Clone, Copy)]
pub enum ExecPhase {
    /// The chunk with `return` prepended has been handed to the compiler.
    ExpressionLoad,
    /// The chunk has been handed to the compiler verbatim.
    StatementLoad,
    /// The compiled chunk has been handed to the protected call.
    Running,
    /// The machine's results are being read as display strings.
    ReadingValues { count: usize },
    /// The diagnostic on top of the stack is being read.
    ReadingError { status: LuaErrorStatus, pops: usize },
    /// The execution has produced its result.
    Finished,
}

/// One execution of one chunk against one interpreter handle.
pub struct ChunkExecution {
    chunk: String,
    phase: ExecPhase,
    depth: usize,
}

impl ChunkExecution {
    /// The phase the execution stands in.
    pub closed spec fn phase(&self) -> ExecPhase {
        self.phase
    }

    /// The chunk this execution was started with.
    pub closed spec fn chunk_view(&self) -> Seq<char> {
        self.chunk@
    }

    /// The machine's stack depth above the baseline, as established by the
    /// most recent event.
    pub closed spec fn depth(&self) -> usize {
        self.depth
    }

    /// Ties the accounted stack depth to the phase: while a diagnostic or
    /// results wait on the stack the depth equals what remains to pop, and a
    /// finished execution stands exactly at the baseline.
    pub open spec fn wf(&self) -> bool {
        &&& (self.phase() is ExpressionLoad ==> self.depth() == 0)
        &&& (self.phase() is StatementLoad ==> self.depth() == 1)
        &&& (self.phase() is Running ==> self.depth() == 1)
        &&& (self.phase() matches ExecPhase::ReadingValues { count } ==> self.depth() == count)
        &&& (self.phase() matches ExecPhase::ReadingError { pops, .. } ==> self.depth() == pops)
        &&& (self.phase() is Finished ==> self.depth() == 0)
    }

    /// Whether the execution has produced its result.
    pub fn is_finished(&self) -> (b: bool)
        ensures
            b == (self.phase() is Finished),
    {
        match self.phase {
            ExecPhase::Finished => true,
            _ => false,
        }
    }

    /// The machine's stack depth above the baseline, as established by the
    /// most recent event.
    pub fn stack_depth(&self) -> (d: usize)
        ensures
            d == self.depth(),
    {
        self.depth
    }

    /// Whether the next event owed is a compilation status.
    pub fn awaiting_load_result(&self) -> (b: bool)
        ensures
            b == (self.phase() is ExpressionLoad || self.phase() is StatementLoad),
    {
        match self.phase {
            ExecPhase::ExpressionLoad => true,
            ExecPhase::StatementLoad => true,
            _ => false,
        }
    }

    /// Whether the next event owed is a protected-call status.
    pub fn awaiting_call_result(&self) -> (b: bool)
        ensures
            b == (self.phase() is Running),
    {
        match self.phase {
            ExecPhase::Running => true,
            _ => false,
        }
    }

    /// How many result strings the execution waits for, if it waits for any.
    pub fn expected_values(&self) -> (n: Option<usize>)
        ensures
            self.phase() matches ExecPhase::ReadingValues { count } ==> n == Some(count),
            self.phase() !is ReadingValues ==> n is None,
    {
        match self.phase {
            ExecPhase::ReadingValues { count } => Some(count),
            _ => None,
        }
    }

    /// Whether the next event owed is the diagnostic text.
    pub fn awaiting_error_message(&self) -> (b: bool)
        ensures
            b == (self.phase() is ReadingError),
    {
        match self.phase {
            ExecPhase::ReadingError { .. } => true,
            _ => false,
        }
    }

    /// Begins the execution of one chunk. The first demand on the machine is
    /// to compile the chunk as an expression: the chunk with `return`
    /// prepended.
    pub fn new(chunk: &str) -> (r: (ChunkExecution, MachineAction))
        ensures
            r.0.wf(),
            r.0.phase() is ExpressionLoad,
            r.0.chunk_view() == chunk@,
            r.0.depth() == 0,
            r.1 matches MachineAction::LoadText(t) && t@ == spec_with_return(chunk@),
    {
        let exec = ChunkExecution {
            chunk: chunk.to_owned(),
            phase: ExecPhase::ExpressionLoad,
            depth: 0,
        };
        (exec, MachineAction::LoadText(with_return(chunk)))
    }

    /// Consumes the status the compiler reported. A successful compilation
    /// moves on to the protected call; a chunk that failed as an expression
    /// is retried verbatim; a chunk that failed in both forms is classified,
    /// and the diagnostic the compiler left is read and popped.
    pub fn on_load_result(&mut self, rcode: i32) -> (a: MachineAction)
        requires
            old(self).wf(),
            old(self).phase() is ExpressionLoad || old(self).phase() is StatementLoad,
        ensures
            final(self).wf(),
            final(self).chunk_view() == old(self).chunk_view(),
            final(self).depth() == 1,
            spec_rcode_from_raw(rcode as int) is Success ==> {
                &&& final(self).phase() is Running
                &&& a is RunLoaded
            },
            spec_rcode_from_raw(rcode as int) !is Success && old(self).phase() is ExpressionLoad
                ==> {
                &&& final(self).phase() is StatementLoad
                &&& a matches MachineAction::DiscardThenLoadText(t) && t@ == old(self).chunk_view()
            },
            spec_rcode_from_raw(rcode as int) !is Success && old(self).phase() is StatementLoad
                ==> {
                &&& final(self).phase() == (ExecPhase::ReadingError {
                    status: spec_error_status(spec_rcode_from_raw(rcode as int)),
                    pops: 1,
                })
                &&& a == MachineAction::TakeErrorMessage(1)
            },
    {
        let code = LuaRcode::from_raw_rcode(rcode);
        self.depth = 1;
        match code {
            LuaRcode::Success => {
                self.phase = ExecPhase::Running;
                MachineAction::RunLoaded
            },
            _ => {
                match self.phase {
                    ExecPhase::ExpressionLoad => {
                        self.phase = ExecPhase::StatementLoad;
                        MachineAction::DiscardThenLoadText(self.chunk.clone())
                    },
                    _ => {
                        let status = error_status_of(&code);
                        self.phase = ExecPhase::ReadingError { status, pops: 1 };
                        MachineAction::TakeErrorMessage(1)
                    },
                }
            },
        }
    }

    /// Consumes what the protected call reported: its status, and how many
    /// values now stand on the stack above the baseline. On success all of
    /// them are read as the chunk's results; on failure the single error
    /// value is read as the diagnostic. Either way everything above the
    /// baseline is popped.
    pub fn on_call_result(&mut self, rcode: i32, values_on_stack: usize) -> (a: MachineAction)
        requires
            old(self).wf(),
            old(self).phase() is Running,
        ensures
            final(self).wf(),
            final(self).chunk_view() == old(self).chunk_view(),
            final(self).depth() == values_on_stack,
            spec_rcode_from_raw(rcode as int) is Success ==> {
                &&& final(self).phase() == (ExecPhase::ReadingValues { count: values_on_stack })
                &&& a == MachineAction::TakeValues(values_on_stack)
            },
            spec_rcode_from_raw(rcode as int) !is Success ==> {
                &&& final(self).phase() == (ExecPhase::ReadingError {
                    status: spec_error_status(spec_rcode_from_raw(rcode as int)),
                    pops: values_on_stack,
                })
                &&& a == MachineAction::TakeErrorMessage(values_on_stack)
            },
    {
        let code = LuaRcode::from_raw_rcode(rcode);
        self.depth = values_on_stack;
        match code {
            LuaRcode::Success => {
                self.phase = ExecPhase::ReadingValues { count: values_on_stack };
                MachineAction::TakeValues(values_on_stack)
            },
            _ => {
                let status = error_status_of(&code);
                self.phase = ExecPhase::ReadingError { status, pops: values_on_stack };
                MachineAction::TakeErrorMessage(values_on_stack)
            },
        }
    }

    /// Consumes the display strings read for the chunk's results, one per
    /// value that stood on the stack. The execution succeeds with exactly
    /// those strings, in the machine's left-to-right order.
    pub fn on_values(&mut self, values: Vec<String>) -> (r: Result<Vec<String>, LuaError>)
        requires
            old(self).wf(),
            old(self).phase() matches ExecPhase::ReadingValues { count } && values@.len() == count,
        ensures
            final(self).wf(),
            final(self).chunk_view() == old(self).chunk_view(),
            final(self).phase() is Finished,
            final(self).depth() == 0,
            r == Ok::<Vec<String>, LuaError>(values),
    {
        self.phase = ExecPhase::Finished;
        self.depth = 0;
        Ok(values)
    }

    /// Consumes the diagnostic read from the top of the stack. The execution
    /// fails with the status classified earlier and exactly that message.
    pub fn on_error_message(&mut self, message: String) -> (r: Result<Vec<String>, LuaError>)
        requires
            old(self).wf(),
            old(self).phase() is ReadingError,
        ensures
            final(self).wf(),
            final(self).chunk_view() == old(self).chunk_view(),
            final(self).phase() is Finished,
            final(self).depth() == 0,
            r matches Err(e) && e.status == old(self).phase()->ReadingError_status && e.message
                == message,
    {
        let status = match self.phase {
            ExecPhase::ReadingError { status, .. } => status,
            _ => LuaErrorStatus::InternalError,
        };
        self.phase = ExecPhase::Finished;
        self.depth = 0;
        Err(LuaError { status, message })
    }
}

/// Stack balance: whichever path an execution takes through the protocol,
/// once it has finished, the machine's stack stands exactly at the depth
/// recorded immediately before the call. Interleaving valid and invalid
/// chunks against one handle therefore leaves the depth untouched after
/// every call.
pub proof fn lemma_stack_balance(exec: &ChunkExecution)
    requires
        exec.wf(),
        exec.phase() is Finished,
    ensures
        exec.depth() == 0,
{
}

} // verus!
