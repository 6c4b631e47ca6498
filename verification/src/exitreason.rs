//! How a target process run ended, and the mapping from the wait status the
//! operating system reports.

use vstd::prelude::*;

verus! {

/// What waiting on a child process reported. The embedding application
/// translates the raw wait status into this; anything it cannot name
/// becomes `Unknown`.
#[derive(Clone, Copy, Debug, PartialEq, Eq, Structural)]
pub enum WaitOutcome {
    Exited { pid: i32, status: i32 },
    SignaledBy { pid: i32, signal: i32, core_dumped: bool },
    StoppedBy { pid: i32, signal: i32 },
    Unknown,
}

/// Why a run ended, as the fuzzer classifies it.
#[derive(Debug, Clone, PartialEq, Eq, Hash)]
pub enum ExitReason {
    Normal(i32),
    Timeout,
    Signaled(i32),
    Crash(Vec<u8>),
    Asan,
    Stopped(i32),
    FuzzerError,
    InvalidWriteToPayload(Vec<u8>),
}

impl ExitReason {
    /// Classifies a wait status: a clean exit keeps its status code, a
    /// signal death or a stop keeps its signal. A status this controller
    /// cannot name is outside the protocol and excluded.
    pub fn from_wait_status(status: WaitOutcome) -> (r: ExitReason)
        requires
            !(status is Unknown),
        ensures
            status matches WaitOutcome::Exited { pid, status: code } ==> r == ExitReason::Normal(
                code,
            ),
            status matches WaitOutcome::SignaledBy { pid, signal, core_dumped } ==> r
                == ExitReason::Signaled(signal),
            status matches WaitOutcome::StoppedBy { pid, signal } ==> r == ExitReason::Stopped(
                signal,
            ),
    {
        match status {
            WaitOutcome::Exited { pid: _, status: code } => ExitReason::Normal(code),
            WaitOutcome::SignaledBy { pid: _, signal, core_dumped: _ } => ExitReason::Signaled(
                signal,
            ),
            WaitOutcome::StoppedBy { pid: _, signal } => ExitReason::Stopped(signal),
            WaitOutcome::Unknown => ExitReason::Timeout,
        }
    }

    /// Whether the run ended in a clean exit.
    pub fn is_normal(&self) -> (r: bool)
        ensures
            r == (*self is Normal),
    {
        matches!(self, ExitReason::Normal(_))
    }

    /// A short printable name for the reason. `FuzzerError` never reaches a
    /// caller that prints it.
    pub fn name(&self) -> (r: &str)
        requires
            !(*self is FuzzerError),
        ensures
            *self is Normal ==> r@ == "normal"@,
            *self is Timeout ==> r@ == "timeout"@,
            *self is Signaled ==> r@ == "signal"@,
            *self is Crash ==> r@ == "crash"@,
            *self is Asan ==> r@ == "asan"@,
            *self is Stopped ==> r@ == "stop"@,
            *self is InvalidWriteToPayload ==> r@ == "invalid_write_to_payload_buffer"@,
    {
        match self {
            ExitReason::Normal(_) => "normal",
            ExitReason::Timeout => "timeout",
            ExitReason::Signaled(_) => "signal",
            ExitReason::Crash(_) => "crash",
            ExitReason::Asan => "asan",
            ExitReason::Stopped(_) => "stop",
            ExitReason::InvalidWriteToPayload(_) => "invalid_write_to_payload_buffer",
            ExitReason::FuzzerError => "",
        }
    }
}

} // verus!
