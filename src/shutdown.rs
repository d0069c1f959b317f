//! The summary of how a session's shell ended.
use vstd::prelude::*;

verus! {

/// How the shell ended, in the two numbers that are reported: the signal that
/// terminated it (0 if none did) and its exit code (0 if it did not exit by itself).
#[derive(Debug, Clone, Copy, PartialEq, Eq, Structural)]
pub struct ShutdownReport {
    pub signal: i32,
    pub status: i32,
}

impl ShutdownReport {
    /// Builds the report from what waiting on the shell gave: its exit code if it
    /// exited, the signal number if a signal terminated it.
    pub fn from_wait(code: Option<i32>, signal: Option<i32>) -> (r: ShutdownReport)
        ensures
            r.signal == (match signal {
                Some(s) => s,
                None => 0,
            }),
            r.status == (match code {
                Some(c) => c,
                None => 0,
            }),
    {
        let signal = match signal {
            Some(s) => s,
            None => 0,
        };
        let status = match code {
            Some(c) => c,
            None => 0,
        };
        ShutdownReport { signal, status }
    }

    /// Whether the shell ended on its own rather than by a signal.
    pub fn exited_normally(&self) -> (r: bool)
        ensures
            r == (self.signal == 0),
    {
        self.signal == 0
    }
}

} // verus!
