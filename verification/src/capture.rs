//! Scoped output capture: a model of the machine's print binding and of the
//! capability token bound into it.
//!
//! Registration overwrites the machine's print binding with a callable that
//! holds one bound capability token resolving to the host's receiver;
//! unregistration sets the binding to an inert value and releases the token.
//! The driving loop pairs the two tightly around exactly one execution, on
//! every exit path. This module carries that discipline as a verified state
//! machine, and proves that after any such paired use no bound token stays
//! live, however many times capture is registered and released.

use vstd::prelude::*;

verus! {

/// What the machine's print binding currently holds.
#[derive(PartialEq, Eq, Structural, Debug, Clone, Copy)]
pub enum PrintBinding {
    /// The binding as the machine's standard library installed it.
    LibraryDefault,
    /// The host's callable, holding one bound capability token.
    Captured,
    /// An inert value: printing reaches no receiver and holds no token.
    Inert,
}

/// The capture-relevant state of one interpreter handle: its print binding,
/// and whether a bound capability token is currently live.
#[derive(PartialEq, Eq, Structural, Debug, Clone, Copy)]
pub struct CaptureState {
    pub binding: PrintBinding,
    pub token_live: bool,
}

/// One step of the capture discipline.
#[derive(PartialEq, Eq, Structural, Debug, Clone, Copy)]
pub enum CaptureOp {
    /// Overwrite the print binding with the capturing callable and bind a
    /// fresh capability token into it.
    Register,
    /// Set the print binding to an inert value and release the bound token.
    Unregister,
}

/// How one capture step changes the machine's state.
pub open spec fn spec_apply_op(state: CaptureState, op: CaptureOp) -> CaptureState {
    match op {
        CaptureOp::Register => CaptureState { binding: PrintBinding::Captured, token_live: true },
        CaptureOp::Unregister => CaptureState {
            binding: PrintBinding::Inert,
            token_live: false,
        },
    }
}

/// How a sequence of capture steps changes the machine's state, first step
/// first.
pub open spec fn spec_apply_ops(state: CaptureState, ops: Seq<CaptureOp>) -> CaptureState
    decreases ops.len(),
{
    if ops.len() == 0 {
        state
    } else {
        spec_apply_ops(spec_apply_op(state, ops.first()), ops.drop_first())
    }
}

impl CaptureState {
    /// The state of a freshly created handle, after its standard library has
    /// been loaded and before any capture was registered.
    pub fn library_default() -> (s: CaptureState)
        ensures
            s.binding is LibraryDefault,
            !s.token_live,
    {
        CaptureState { binding: PrintBinding::LibraryDefault, token_live: false }
    }

    /// Registers output capture. Not reentrant: a second registration must
    /// not be started while a token is live on the same handle.
    pub fn register(&mut self)
        requires
            !old(self).token_live,
        ensures
            *final(self) == spec_apply_op(*old(self), CaptureOp::Register),
            final(self).binding is Captured,
            final(self).token_live,
    {
        self.binding = PrintBinding::Captured;
        self.token_live = true;
    }

    /// Unregisters output capture: the binding becomes inert and the token
    /// is released. Safe on every exit path, registered or not.
    pub fn unregister(&mut self)
        ensures
            *final(self) == spec_apply_op(*old(self), CaptureOp::Unregister),
            final(self).binding is Inert,
            !final(self).token_live,
    {
        self.binding = PrintBinding::Inert;
        self.token_live = false;
    }
}

/// The last step of a capture sequence alone decides the final state.
proof fn lemma_last_op_decides(state: CaptureState, ops: Seq<CaptureOp>)
    requires
        ops.len() > 0,
    ensures
        spec_apply_ops(state, ops) == spec_apply_op(state, ops.last()),
    decreases ops.len(),
{
    if ops.len() > 1 {
        let stepped = spec_apply_op(state, ops.first());
        lemma_last_op_decides(stepped, ops.drop_first());
        assert(ops.drop_first().last() == ops.last());
        assert(spec_apply_ops(state, ops) == spec_apply_ops(stepped, ops.drop_first()));
        assert(spec_apply_op(stepped, ops.last()) == spec_apply_op(state, ops.last()));
    } else {
        let stepped = spec_apply_op(state, ops.first());
        assert(ops.drop_first().len() == 0);
        assert(spec_apply_ops(state, ops) == spec_apply_ops(stepped, ops.drop_first()));
        assert(spec_apply_ops(stepped, ops.drop_first()) == stepped);
        assert(ops.first() == ops.last());
    }
}

/// Capture scoping: after any sequence of registrations and releases whose
/// last step is a release — in particular after any number of paired uses —
/// no residual capability token is live, and the print binding holds no
/// capture; it stands at the inert value the release installs.
pub proof fn lemma_capture_release(state: CaptureState, ops: Seq<CaptureOp>)
    requires
        ops.len() > 0,
        ops.last() is Unregister,
    ensures
        !spec_apply_ops(state, ops).token_live,
        spec_apply_ops(state, ops).binding is Inert,
{
    lemma_last_op_decides(state, ops);
}

/// Capture scoping idempotence: one registered-and-released use leaves the
/// machine in a fixed state, so repeating the paired use any number of times
/// changes nothing beyond the first.
pub proof fn lemma_capture_idempotent(state: CaptureState)
    ensures
        spec_apply_ops(
            spec_apply_ops(state, seq![CaptureOp::Register, CaptureOp::Unregister]),
            seq![CaptureOp::Register, CaptureOp::Unregister],
        ) == spec_apply_ops(state, seq![CaptureOp::Register, CaptureOp::Unregister]),
{
    let pair = seq![CaptureOp::Register, CaptureOp::Unregister];
    assert(pair.last() is Unregister);
    lemma_capture_release(state, pair);
    lemma_capture_release(spec_apply_ops(state, pair), pair);
    assert(spec_apply_ops(spec_apply_ops(state, pair), pair) == spec_apply_ops(state, pair));
}

} // verus!
