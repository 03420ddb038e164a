//! Safety boundary and protocol around an embedded stack-based scripting
//! interpreter: the typed error taxonomy and its classifier, the
//! stack-discipline execution protocol, the scoped output-capture
//! discipline, a session store, and the pure state machine of an
//! interactive console.

pub mod capture;
pub mod lua;
pub mod protocol;
pub mod repl;
pub mod session;
