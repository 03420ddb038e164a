//! Status codes of the embedded interpreter, the typed error taxonomy, and
//! the pure classification from raw machine status to a typed error.

use vstd::prelude::*;
use vstd::string::StringExecFns;

verus! {

/// Status codes returned by the interpreter's virtual machine.
#[derive(PartialEq, Eq, Debug, Clone, Copy)]
pub enum LuaRcode {
    Success,
    Yield,
    ErrRun,
    ErrSyntax,
    ErrMem,
    ErrGcmm,
    ErrErr,
    ErrInvalid,
}

/// The fixed table mapping a raw machine status code to a status value.
pub open spec fn spec_rcode_from_raw(rcode: int) -> LuaRcode {
    if rcode == 0 {
        LuaRcode::Success
    } else if rcode == 1 {
        LuaRcode::Yield
    } else if rcode == 2 {
        LuaRcode::ErrRun
    } else if rcode == 3 {
        LuaRcode::ErrSyntax
    } else if rcode == 4 {
        LuaRcode::ErrMem
    } else if rcode == 5 {
        LuaRcode::ErrGcmm
    } else if rcode == 6 {
        LuaRcode::ErrErr
    } else {
        LuaRcode::ErrInvalid
    }
}

impl LuaRcode {
    /// Converts a raw integer status code returned by the machine into a
    /// proper enum value.
    pub fn from_raw_rcode(rcode: i32) -> (r: LuaRcode)
        ensures
            r == spec_rcode_from_raw(rcode as int),
    {
        match rcode {
            0 => LuaRcode::Success,
            1 => LuaRcode::Yield,
            2 => LuaRcode::ErrRun,
            3 => LuaRcode::ErrSyntax,
            4 => LuaRcode::ErrMem,
            5 => LuaRcode::ErrGcmm,
            6 => LuaRcode::ErrErr,
            _ => LuaRcode::ErrInvalid,
        }
    }
}

/// Possible errors with compiling and executing chunks.
#[derive(PartialEq, Eq, Debug, Clone, Copy)]
pub enum LuaErrorStatus {
    Yield,
    RuntimeError,
    SyntaxError,
    InternalError,
}

/// The error taxonomy: a machine status is classified as a suspension that
/// reached the top level, a runtime error, a syntax error, or an internal
/// failure of the machine itself (allocation, collector metamethod, or an
/// error raised while already handling an error).
pub open spec fn spec_error_status(rcode: LuaRcode) -> LuaErrorStatus {
    match rcode {
        LuaRcode::Yield => LuaErrorStatus::Yield,
        LuaRcode::ErrSyntax => LuaErrorStatus::SyntaxError,
        LuaRcode::ErrRun => LuaErrorStatus::RuntimeError,
        _ => LuaErrorStatus::InternalError,
    }
}

/// Classifies a machine status code under the error taxonomy.
pub fn error_status_of(rcode: &LuaRcode) -> (s: LuaErrorStatus)
    ensures
        s == spec_error_status(*rcode),
{
    match rcode {
        LuaRcode::Yield => LuaErrorStatus::Yield,
        LuaRcode::ErrSyntax => LuaErrorStatus::SyntaxError,
        LuaRcode::ErrRun => LuaErrorStatus::RuntimeError,
        _ => LuaErrorStatus::InternalError,
    }
}

/// Represents errors executing and compiling chunks.
#[derive(PartialEq, Eq, Debug)]
pub struct LuaError {
    pub status: LuaErrorStatus,
    pub message: String,
}

impl LuaError {
    /// Builds the typed error for a failed machine status together with the
    /// diagnostic text that was read from the top of the value stack.
    pub fn from_rcode(rcode: &LuaRcode, message: String) -> (e: LuaError)
        ensures
            e.status == spec_error_status(*rcode),
            e.message == message,
    {
        LuaError { status: error_status_of(rcode), message }
    }
}

/// Trait used to respond to output generated by an executing chunk.
pub trait LuaIO {
    /// Invoked whenever the print primitive is called in a chunk, with all
    /// arguments converted to display strings.
    fn on_print(&mut self, values: Vec<String>);
}

/// The text loaded when a chunk is first treated as an expression: the chunk
/// with a `return` prepended.
pub open spec fn spec_with_return(chunk: Seq<char>) -> Seq<char> {
    "return "@ + chunk
}

/// Turns the given chunk into an expression by adding a `return` in front of
/// it.
pub fn with_return(chunk: &str) -> (r: String)
    ensures
        r@ == spec_with_return(chunk@),
{
    let mut with_ret: String = "return ".to_owned();
    with_ret.append(chunk);
    with_ret
}

} // verus!
