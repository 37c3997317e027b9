//! Classifying how a child process finished.
use vstd::prelude::*;
use crate::error::{Error, ErrorKind, views};
use crate::text::{i32_to_decimal, signed_decimal};

verus! {

/// How a child process finished.
#[derive(Clone, Copy, Debug, PartialEq, Eq, Structural)]
pub enum ProcessExit {
    /// Exit code 0.
    Success,
    /// A nonzero exit code.
    Failure(i32),
    /// Terminated by the signal with this number.
    Killed(i32),
    /// Neither an exit code nor a signal is known.
    Unknown,
}

/// The classification of a finished process from its exit code and its
/// terminating signal, as the operating system reports them.
pub open spec fn exit_class(code: Option<i32>, signal: Option<i32>) -> ProcessExit {
    match code {
        Some(c) => if c == 0 { ProcessExit::Success } else { ProcessExit::Failure(c) },
        None => match signal {
            Some(s) => ProcessExit::Killed(s),
            None => ProcessExit::Unknown,
        },
    }
}

/// The message that describes an unsuccessful exit.
pub open spec fn exit_message(e: ProcessExit) -> Seq<char> {
    match e {
        ProcessExit::Success => "Child process finished successfully"@,
        ProcessExit::Failure(c) => "Child process returned failure exit status "@ + signed_decimal(
            c as int,
        ),
        ProcessExit::Killed(s) => "Child process terminated by signal "@ + signed_decimal(s as int),
        ProcessExit::Unknown => "Child process terminated unsuccessfully for unknown reason"@,
    }
}

/// Classifies a finished process: success exactly for exit code 0.
pub fn classify_exit(code: Option<i32>, signal: Option<i32>) -> (r: ProcessExit)
    ensures
        r == exit_class(code, signal),
{
    match code {
        Some(c) => if c == 0 {
            ProcessExit::Success
        } else {
            ProcessExit::Failure(c)
        },
        None => match signal {
            Some(s) => ProcessExit::Killed(s),
            None => ProcessExit::Unknown,
        },
    }
}

impl ProcessExit {
    /// Whether the process succeeded.
    pub fn is_success(&self) -> (r: bool)
        ensures
            r == (*self == ProcessExit::Success),
    {
        match self {
            ProcessExit::Success => true,
            _ => false,
        }
    }

    /// A message naming the exit code or the signal.
    pub fn message(&self) -> (r: String)
        ensures
            r@ == exit_message(*self),
    {
        match self {
            ProcessExit::Success => "Child process finished successfully".to_owned(),
            ProcessExit::Failure(c) => {
                let mut s = "Child process returned failure exit status ".to_owned();
                s.append(i32_to_decimal(*c).as_str());
                s
            },
            ProcessExit::Killed(sig) => {
                let mut s = "Child process terminated by signal ".to_owned();
                s.append(i32_to_decimal(*sig).as_str());
                s
            },
            ProcessExit::Unknown => "Child process terminated unsuccessfully for unknown reason".to_owned(),
        }
    }
}

/// Turns a finished process into the result of the operation it governs: only
/// success lets the operation go on.
pub fn check_success(code: Option<i32>, signal: Option<i32>) -> (r: Result<(), Error>)
    ensures
        exit_class(code, signal) == ProcessExit::Success <==> r is Ok,
        r matches Err(e) ==> e.kind == ErrorKind::ProcessExit(exit_class(code, signal)) && views(
            e.context@,
        ) == seq![exit_message(exit_class(code, signal))],
{
    let e = classify_exit(code, signal);
    if e.is_success() {
        Ok(())
    } else {
        let msg = e.message();
        Err(Error::new(ErrorKind::ProcessExit(e), msg.as_str()))
    }
}

/// The outcome of waiting for an emulator: the process's own failure comes
/// first; the failure to remove its sandbox is reported only after a success.
pub fn wait_outcome(process: Result<(), Error>, cleanup: Result<(), Error>) -> (r: Result<(), Error>)
    ensures
        process is Err ==> r == process,
        process is Ok ==> r == cleanup,
{
    match process {
        Err(e) => Err(e),
        Ok(()) => cleanup,
    }
}

} // verus!
