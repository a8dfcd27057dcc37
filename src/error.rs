use vstd::prelude::*;

verus! {

/// Failures reported by the session registry.
#[derive(Debug, Clone, PartialEq, Eq)]
pub enum Error {
    /// Allocating the pseudo-terminal or launching the command failed.
    PtyError(String),
    /// Reading from or writing to a live session failed.
    IoError(String),
    /// The id names no live session.
    TerminalNotFound(u32),
    /// Every session id has already been handed out.
    IdsExhausted,
}

} // verus!
