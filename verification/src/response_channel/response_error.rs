use vstd::prelude::*;

verus! {

/// How a correlated exchange can fail on the caller's side: the shared
/// queue's consumer is gone (the message comes back in `SendError`), or the
/// consumer dropped this caller's private reply handle without replying.
#[derive(Debug, PartialEq, Eq)]
pub enum Error<M> {
    SendError(M),
    RecvError,
}

/// One reply of the command worker: the typed payloads a command can yield.
#[derive(Debug, Clone, PartialEq, Eq)]
pub enum TokenKind {
    Int(i64),
    Boolean(bool),
    Text(String),
    Unit,
}

} // verus!
