use std::collections::HashMap;
use vstd::prelude::*;

verus! {

/// Identifies one spawned session for the lifetime of its registry.
pub type TerminalId = u32;

/// Rows used when a spawn request names no size.
pub const DEFAULT_ROWS: u16 = 24;

/// Columns used when a spawn request names no size.
pub const DEFAULT_COLS: u16 = 80;

/// Shell launched when the environment names none.
pub const FALLBACK_SHELL: &'static str = "/bin/bash";

/// Exit code reported when the real one cannot be obtained or represented.
pub const UNKNOWN_EXIT_CODE: i32 = -1;

/// A request addressed to one session.
#[derive(Debug, Clone, PartialEq, Eq)]
pub enum PtyMessage {
    Input(Vec<u8>),
    Resize(u16, u16),
    Close,
}

/// What a session reports on the merged event stream.
#[derive(Debug, Clone, PartialEq, Eq)]
pub enum PtyEvent {
    /// A chunk of output, in the order the process wrote it.
    Data(Vec<u8>),
    /// A read or process failure; it does not by itself end the session.
    Error(String),
    /// The authoritative end of the session, with its exit code.
    Terminated(i32),
}

impl PtyEvent {
    pub open spec fn is_final(self) -> bool {
        self is Terminated
    }
}

/// How to launch a session.
pub struct PtySpawnConfig {
    pub command: String,
    pub arguments: Option<Vec<String>>,
    /// `(rows, cols)`.
    pub size: Option<(u16, u16)>,
    pub cwd: Option<String>,
    pub env: Option<HashMap<String, String>>,
}

pub open spec fn spec_size_or_default(size: Option<(u16, u16)>) -> (u16, u16) {
    match size {
        Some(s) => s,
        None => (DEFAULT_ROWS, DEFAULT_COLS),
    }
}

impl PtySpawnConfig {
    /// The configuration that launches the user's shell, given the value of
    /// the shell variable and the current directory: the shell falls back to
    /// `/bin/bash`, the size to the default, the environment is inherited.
    pub fn from_environment(shell: Option<String>, cwd: Option<String>) -> (r: PtySpawnConfig)
        ensures
            r.command@ == (match shell {
                Some(s) => s@,
                None => FALLBACK_SHELL@,
            }),
            r.arguments is None,
            r.size is None,
            r.cwd == cwd,
            r.env is None,
    {
        let command = match shell {
            Some(s) => s,
            None => FALLBACK_SHELL.to_string(),
        };
        PtySpawnConfig { command, arguments: None, size: None, cwd, env: None }
    }

    /// The terminal size to open the session with, as `(rows, cols)`.
    pub fn pty_size(&self) -> (r: (u16, u16))
        ensures
            r == spec_size_or_default(self.size),
    {
        match self.size {
            Some(s) => s,
            None => (DEFAULT_ROWS, DEFAULT_COLS),
        }
    }
}

/// The exit code a session reports for a process status code: the code
/// itself where it fits an `i32`, otherwise `UNKNOWN_EXIT_CODE`.
pub open spec fn spec_exit_code(status: u32) -> i32 {
    if status <= i32::MAX as u32 {
        status as i32
    } else {
        UNKNOWN_EXIT_CODE
    }
}

pub fn exit_code(status: u32) -> (r: i32)
    ensures
        r == spec_exit_code(status),
{
    if status <= i32::MAX as u32 {
        status as i32
    } else {
        UNKNOWN_EXIT_CODE
    }
}

} // verus!
