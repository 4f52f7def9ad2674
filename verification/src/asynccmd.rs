//! Bookkeeping of a command run in the background: which of its output
//! readers and its process are still awaited, and what it ended with.

use vstd::prelude::*;

verus! {

/// What is awaited of a running command.
#[derive(Debug, PartialEq, Eq, Clone, Copy)]
pub enum WaitTarget {
    Stderr,
    Stdout,
    Child,
}

/// What finished: an output reader, or the process with its outcome.
#[derive(Debug)]
pub enum Finished<S> {
    Thread,
    Process(S),
}

/// The waiters still pending and the process outcome, once known.
#[derive(Debug)]
pub struct Waiters<S> {
    stderr: bool,
    stdout: bool,
    child: bool,
    status: Option<S>,
}

impl<S> Waiters<S> {
    /// Whether `id` is still awaited.
    pub closed spec fn pending(&self, id: WaitTarget) -> bool {
        match id {
            WaitTarget::Stderr => self.stderr,
            WaitTarget::Stdout => self.stdout,
            WaitTarget::Child => self.child,
        }
    }

    /// The process outcome recorded so far.
    pub closed spec fn outcome(&self) -> Option<S> {
        self.status
    }

    /// Both readers and the process awaited, no outcome yet.
    pub fn new() -> (w: Waiters<S>)
        ensures
            w.pending(WaitTarget::Stderr),
            w.pending(WaitTarget::Stdout),
            w.pending(WaitTarget::Child),
            w.outcome() is None,
    {
        Waiters { stderr: true, stdout: true, child: true, status: None }
    }

    /// Takes notice that `id` finished with `result`. A notice for
    /// something not awaited changes nothing and is reported by returning
    /// `false`; otherwise `id` is no longer awaited, and a process outcome
    /// is recorded.
    pub fn notice(&mut self, id: WaitTarget, result: Finished<S>) -> (known: bool)
        ensures
            known == old(self).pending(id),
            forall|t: WaitTarget|
                #[trigger] final(self).pending(t) == (old(self).pending(t) && !(known && t == id)),
            final(self).outcome() == (if known && result is Process {
                Some(result->0)
            } else {
                old(self).outcome()
            }),
    {
        let known = match id {
            WaitTarget::Stderr => self.stderr,
            WaitTarget::Stdout => self.stdout,
            WaitTarget::Child => self.child,
        };
        if !known {
            return false;
        }
        match id {
            WaitTarget::Stderr => self.stderr = false,
            WaitTarget::Stdout => self.stdout = false,
            WaitTarget::Child => self.child = false,
        }
        match result {
            Finished::Thread => {},
            Finished::Process(s) => self.status = Some(s),
        }
        true
    }

    /// Whether nothing is awaited any more.
    pub fn all_done(&self) -> (r: bool)
        ensures
            r == (!self.pending(WaitTarget::Stderr) && !self.pending(WaitTarget::Stdout)
                && !self.pending(WaitTarget::Child)),
    {
        !self.stderr && !self.stdout && !self.child
    }

    /// The process outcome, if it was noticed.
    pub fn into_outcome(self) -> (r: Option<S>)
        ensures
            r == self.outcome(),
    {
        self.status
    }
}

/// The line written to the log for a line read from a command's output:
/// the line itself, or a notice when it was not valid UTF-8.
pub fn log_line<E>(read: Result<String, E>) -> (r: String)
    ensures
        match read {
            Ok(l) => r == l,
            Err(_) => r@ == "Non-UTF8 data omitted from the log."@,
        },
{
    match read {
        Ok(l) => l,
        Err(_) => "Non-UTF8 data omitted from the log.".to_owned(),
    }
}

/// Why waiting for a command gave no exit status.
#[derive(Debug)]
pub enum WaitError<E> {
    /// The waiting thread could not be joined.
    JoinFailed,
    /// The waiting thread ended without an exit status.
    NoExitStatus,
    /// Waiting for the process failed.
    Wait(E),
}

/// The outcome of waiting for a command, from what the waiting thread gave:
/// `None` when it could not be joined, otherwise what it returned.
pub fn wait_result<S, E>(joined: Option<Option<Result<S, E>>>) -> (r: Result<S, WaitError<E>>)
    ensures
        match joined {
            None => r matches Err(WaitError::JoinFailed),
            Some(None) => r matches Err(WaitError::NoExitStatus),
            Some(Some(Ok(s))) => r == Ok::<S, WaitError<E>>(s),
            Some(Some(Err(e))) => r == Err::<S, WaitError<E>>(WaitError::Wait(e)),
        },
{
    match joined {
        None => Err(WaitError::JoinFailed),
        Some(None) => Err(WaitError::NoExitStatus),
        Some(Some(Ok(s))) => Ok(s),
        Some(Some(Err(e))) => Err(WaitError::Wait(e)),
    }
}

} // verus!
