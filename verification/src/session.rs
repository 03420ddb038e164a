//! The session store: many logical conversations share one interpreter by
//! keeping, per session, a FIFO queue of pending inputs, a log of executed
//! inputs, and a log of produced outputs. The store does no execution of its
//! own; an outside scheduler feeds what [`ExecutionSession::get_next_input`]
//! hands out into the execution protocol.

use vstd::prelude::*;
use std::collections::VecDeque;

verus! {

/// Errors of the session store.
#[derive(PartialEq, Eq, Debug, Clone, Copy)]
pub enum ExecutionStoreError {
    SessionNotFound,
    SessionAlreadyExists,
}

/// One logical conversation: its identifier, the inputs waiting to be
/// executed, the inputs already executed, and the outputs produced so far.
#[derive(PartialEq, Debug)]
pub struct ExecutionSession {
    id: String,
    pending_inputs: VecDeque<String>,
    executed_inputs: Vec<String>,
    outputs: Vec<String>,
}

impl ExecutionSession {
    /// The session's identifier.
    pub closed spec fn id_view(&self) -> Seq<char> {
        self.id@
    }

    /// The queue of inputs waiting to be executed, front first.
    pub closed spec fn pending_view(&self) -> Seq<Seq<char>> {
        self.pending_inputs@.map_values(|s: String| s@)
    }

    /// The log of inputs already executed, oldest first.
    pub closed spec fn executed_view(&self) -> Seq<Seq<char>> {
        self.executed_inputs@.map_values(|s: String| s@)
    }

    /// The log of outputs produced so far, oldest first.
    pub closed spec fn outputs_view(&self) -> Seq<Seq<char>> {
        self.outputs@.map_values(|s: String| s@)
    }

    /// A session that has seen no input and produced no output.
    pub open spec fn is_fresh(&self, id: Seq<char>) -> bool {
        &&& self.id_view() == id
        &&& self.pending_view() == Seq::<Seq<char>>::empty()
        &&& self.executed_view() == Seq::<Seq<char>>::empty()
        &&& self.outputs_view() == Seq::<Seq<char>>::empty()
    }

    /// Creates an empty session under the given identifier.
    pub fn new(id: &str) -> (s: ExecutionSession)
        ensures
            s.is_fresh(id@),
    {
        let s = ExecutionSession {
            id: id.to_owned(),
            pending_inputs: VecDeque::new(),
            executed_inputs: Vec::new(),
            outputs: Vec::new(),
        };
        proof {
            assert(s.pending_view() =~= Seq::<Seq<char>>::empty());
            assert(s.executed_view() =~= Seq::<Seq<char>>::empty());
            assert(s.outputs_view() =~= Seq::<Seq<char>>::empty());
        }
        s
    }

    /// Appends an input to the back of the pending queue.
    pub fn add_input(&mut self, input: &str)
        ensures
            final(self).id_view() == old(self).id_view(),
            final(self).pending_view() == old(self).pending_view().push(input@),
            final(self).executed_view() == old(self).executed_view(),
            final(self).outputs_view() == old(self).outputs_view(),
    {
        self.pending_inputs.push_back(input.to_owned());
        proof {
            assert(final(self).pending_view() =~= old(self).pending_view().push(input@));
        }
    }

    /// Appends an output to the output log.
    pub fn add_output(&mut self, input: &str)
        ensures
            final(self).id_view() == old(self).id_view(),
            final(self).pending_view() == old(self).pending_view(),
            final(self).executed_view() == old(self).executed_view(),
            final(self).outputs_view() == old(self).outputs_view().push(input@),
    {
        self.outputs.push(input.to_owned());
        proof {
            assert(final(self).outputs_view() =~= old(self).outputs_view().push(input@));
        }
    }

    /// Moves the front of the pending queue to the executed log and returns
    /// it, or returns nothing when the queue is empty. An input leaves the
    /// queue and enters the log in the same step, exactly once.
    pub fn get_next_input(&mut self) -> (r: Option<String>)
        ensures
            final(self).id_view() == old(self).id_view(),
            final(self).outputs_view() == old(self).outputs_view(),
            old(self).pending_view().len() == 0 ==> {
                &&& r is None
                &&& final(self).pending_view() == old(self).pending_view()
                &&& final(self).executed_view() == old(self).executed_view()
            },
            old(self).pending_view().len() > 0 ==> {
                &&& r matches Some(input) && input@ == old(self).pending_view().first()
                &&& final(self).pending_view() == old(self).pending_view().drop_first()
                &&& final(self).executed_view() == old(self).executed_view().push(
                    old(self).pending_view().first(),
                )
            },
    {
        let next_input = self.pending_inputs.pop_front();
        match next_input {
            None => {
                proof {
                    assert(final(self).pending_view() =~= old(self).pending_view());
                }
                None
            },
            Some(input_line) => {
                self.executed_inputs.push(input_line.clone());
                proof {
                    assert(final(self).pending_view() =~= old(self).pending_view().drop_first());
                    assert(final(self).executed_view() =~= old(self).executed_view().push(
                        old(self).pending_view().first(),
                    ));
                }
                Some(input_line)
            },
        }
    }
}

/// Maps session identifiers to independent sessions. Identifiers are unique
/// within one store.
#[derive(PartialEq, Debug)]
pub struct ExecutionSessionStore {
    sessions: Vec<ExecutionSession>,
}

impl ExecutionSessionStore {
    /// The sessions the store holds, in the order they were added.
    pub closed spec fn sessions(&self) -> Seq<ExecutionSession> {
        self.sessions@
    }

    /// Whether some session in the store carries the given identifier.
    pub open spec fn contains_id(&self, id: Seq<char>) -> bool {
        exists|i: int|
            0 <= i < self.sessions().len() && (#[trigger] self.sessions()[i]).id_view() == id
    }

    /// Identifiers are unique within the store.
    pub open spec fn wf(&self) -> bool {
        forall|i: int, j: int|
            0 <= i < j < self.sessions().len() ==> (#[trigger] self.sessions()[i]).id_view() != (
            #[trigger] self.sessions()[j]).id_view()
    }

    /// Creates a store with no sessions.
    pub fn new() -> (s: ExecutionSessionStore)
        ensures
            s.wf(),
            s.sessions().len() == 0,
    {
        ExecutionSessionStore { sessions: Vec::new() }
    }

    /// Creates an empty session under the given identifier; fails, mutating
    /// nothing, when the identifier is already present.
    pub fn add_session(&mut self, id: &str) -> (r: Result<(), ExecutionStoreError>)
        requires
            old(self).wf(),
        ensures
            final(self).wf(),
            old(self).contains_id(id@) ==> {
                &&& r == Err::<(), ExecutionStoreError>(ExecutionStoreError::SessionAlreadyExists)
                &&& final(self).sessions() == old(self).sessions()
            },
            !old(self).contains_id(id@) ==> {
                &&& r == Ok::<(), ExecutionStoreError>(())
                &&& final(self).sessions().len() == old(self).sessions().len() + 1
                &&& final(self).sessions().drop_last() == old(self).sessions()
                &&& final(self).sessions().last().is_fresh(id@)
            },
    {
        let key: String = id.to_owned();
        let n = self.sessions.len();
        let mut i: usize = 0;
        while i < n
            invariant
                n == self.sessions().len(),
                i <= n,
                forall|k: int| 0 <= k < i ==> (#[trigger] self.sessions()[k]).id_view() != id@,
                key@ == id@,
                self.wf(),
                *self == *old(self),
            decreases n - i,
        {
            if self.sessions[i].id == key {
                return Err(ExecutionStoreError::SessionAlreadyExists);
            }
            i += 1;
        }
        let session = ExecutionSession::new(id);
        self.sessions.push(session);
        proof {
            assert(self.sessions().drop_last() =~= old(self).sessions());
            assert forall|a: int, b: int| 0 <= a < b < self.sessions().len() implies (
            #[trigger] self.sessions()[a]).id_view() != (#[trigger] self.sessions()[b]).id_view()
                by {
                if b == self.sessions().len() - 1 {
                    assert(self.sessions()[a] == old(self).sessions()[a]);
                }
            }
        }
        Ok(())
    }

    /// Appends an input to the pending queue of the session under the given
    /// identifier; fails, mutating nothing, when none carries it.
    pub fn add_session_input(&mut self, id: &str, input: &str) -> (r: Result<
        (),
        ExecutionStoreError,
    >)
        requires
            old(self).wf(),
        ensures
            final(self).wf(),
            !old(self).contains_id(id@) ==> {
                &&& r == Err::<(), ExecutionStoreError>(ExecutionStoreError::SessionNotFound)
                &&& final(self).sessions() == old(self).sessions()
            },
            old(self).contains_id(id@) ==> {
                &&& r == Ok::<(), ExecutionStoreError>(())
                &&& final(self).sessions().len() == old(self).sessions().len()
                &&& exists|i: int|
                    input_added_at(old(self).sessions(), final(self).sessions(), i, id@, input@)
            },
    {
        let key: String = id.to_owned();
        let n = self.sessions.len();
        let mut i: usize = 0;
        while i < n
            invariant
                n == self.sessions().len(),
                i <= n,
                forall|k: int| 0 <= k < i ==> (#[trigger] self.sessions()[k]).id_view() != id@,
                key@ == id@,
                self.wf(),
                *self == *old(self),
            decreases n - i,
        {
            if self.sessions[i].id == key {
                let session = &mut self.sessions[i];
                session.add_input(input);
                proof {
                    assert(input_added_at(old(self).sessions(), self.sessions(), i as int, id@,
                    input@));
                    assert forall|k: int| 0 <= k < self.sessions().len() implies (
                    #[trigger] self.sessions()[k]).id_view() == old(self).sessions()[k].id_view()
                        by {}
                }
                return Ok(());
            }
            i += 1;
        }
        Err(ExecutionStoreError::SessionNotFound)
    }

    /// Appends an output to the output log of the session under the given
    /// identifier; fails, mutating nothing, when none carries it.
    pub fn add_session_outout(&mut self, id: &str, output: &str) -> (r: Result<
        (),
        ExecutionStoreError,
    >)
        requires
            old(self).wf(),
        ensures
            final(self).wf(),
            !old(self).contains_id(id@) ==> {
                &&& r == Err::<(), ExecutionStoreError>(ExecutionStoreError::SessionNotFound)
                &&& final(self).sessions() == old(self).sessions()
            },
            old(self).contains_id(id@) ==> {
                &&& r == Ok::<(), ExecutionStoreError>(())
                &&& final(self).sessions().len() == old(self).sessions().len()
                &&& exists|i: int|
                    output_added_at(old(self).sessions(), final(self).sessions(), i, id@, output@)
            },
    {
        let key: String = id.to_owned();
        let n = self.sessions.len();
        let mut i: usize = 0;
        while i < n
            invariant
                n == self.sessions().len(),
                i <= n,
                forall|k: int| 0 <= k < i ==> (#[trigger] self.sessions()[k]).id_view() != id@,
                key@ == id@,
                self.wf(),
                *self == *old(self),
            decreases n - i,
        {
            if self.sessions[i].id == key {
                let session = &mut self.sessions[i];
                session.add_output(output);
                proof {
                    assert(output_added_at(old(self).sessions(), self.sessions(), i as int, id@,
                    output@));
                    assert forall|k: int| 0 <= k < self.sessions().len() implies (
                    #[trigger] self.sessions()[k]).id_view() == old(self).sessions()[k].id_view()
                        by {}
                }
                return Ok(());
            }
            i += 1;
        }
        Err(ExecutionStoreError::SessionNotFound)
    }

    /// Finds the session under the given identifier, if any.
    pub fn lookup_session(&self, id: &str) -> (r: Option<&ExecutionSession>)
        ensures
            r is Some <==> self.contains_id(id@),
            r matches Some(s) ==> {
                &&& s.id_view() == id@
                &&& exists|i: int|
                    0 <= i < self.sessions().len() && (#[trigger] self.sessions()[i]) == *s
            },
    {
        let key: String = id.to_owned();
        let n = self.sessions.len();
        let mut i: usize = 0;
        while i < n
            invariant
                n == self.sessions().len(),
                i <= n,
                forall|k: int| 0 <= k < i ==> (#[trigger] self.sessions()[k]).id_view() != id@,
                key@ == id@,
            decreases n - i,
        {
            if self.sessions[i].id == key {
                return Some(&self.sessions[i]);
            }
            i += 1;
        }
        None
    }
}

/// At position `i` stands the session under the given identifier, with the
/// given input now at the back of its pending queue; every other position is
/// untouched.
pub open spec fn input_added_at(
    before: Seq<ExecutionSession>,
    after: Seq<ExecutionSession>,
    i: int,
    id: Seq<char>,
    input: Seq<char>,
) -> bool {
    &&& 0 <= i < before.len()
    &&& before[i].id_view() == id
    &&& session_with_input(before[i], after[i], input)
    &&& forall|j: int| 0 <= j < before.len() && j != i ==> after[j] == before[j]
}

/// At position `i` stands the session under the given identifier, with the
/// given output now at the end of its output log; every other position is
/// untouched.
pub open spec fn output_added_at(
    before: Seq<ExecutionSession>,
    after: Seq<ExecutionSession>,
    i: int,
    id: Seq<char>,
    output: Seq<char>,
) -> bool {
    &&& 0 <= i < before.len()
    &&& before[i].id_view() == id
    &&& session_with_output(before[i], after[i], output)
    &&& forall|j: int| 0 <= j < before.len() && j != i ==> after[j] == before[j]
}

/// The second session is the first with one more pending input and all else
/// unchanged.
pub open spec fn session_with_input(
    before: ExecutionSession,
    after: ExecutionSession,
    input: Seq<char>,
) -> bool {
    &&& after.id_view() == before.id_view()
    &&& after.pending_view() == before.pending_view().push(input)
    &&& after.executed_view() == before.executed_view()
    &&& after.outputs_view() == before.outputs_view()
}

/// The second session is the first with one more logged output and all else
/// unchanged.
pub open spec fn session_with_output(
    before: ExecutionSession,
    after: ExecutionSession,
    output: Seq<char>,
) -> bool {
    &&& after.id_view() == before.id_view()
    &&& after.pending_view() == before.pending_view()
    &&& after.executed_view() == before.executed_view()
    &&& after.outputs_view() == before.outputs_view().push(output)
}

} // verus!
