//! The operations that the library asks of the system, and their answers.
//!
//! The library reads no descriptor and starts no thread. A construction
//! states the one operation that it needs next as a [`Request`]; the caller
//! performs it and hands the answer back as a [`Reply`].

use vstd::prelude::*;
use crate::error::{Stage, TtyError};
use crate::handle::{Pipe, PtyPair};
use crate::termattrs::{TermAttrs, WinSize};
use crate::worker::Lane;

verus! {

/// An operation to perform.
#[derive(Clone, Copy, Debug, PartialEq, Eq)]
pub enum Request {
    /// Read the terminal attributes of `fd`. Answer: [`Reply::Attrs`].
    ReadAttrs { fd: i32 },
    /// Read the window geometry of `fd`. Answer: [`Reply::Geometry`].
    ReadGeometry { fd: i32 },
    /// Allocate a pseudo-terminal with these attributes and this geometry,
    /// or with the system's defaults where one is `None`.
    /// Answer: [`Reply::Pty`].
    OpenPty { initial_attrs: Option<TermAttrs>, initial_geometry: Option<WinSize> },
    /// Give `fd` these terminal attributes. With `flush`, input not yet read
    /// is discarded and output not yet written is written out first.
    /// Answer: [`Reply::Done`].
    WriteAttrs { fd: i32, attrs: TermAttrs, flush: bool },
    /// Open a pipe. Answer: [`Reply::Pipe`].
    OpenPipe,
    /// Read the status flags of `fd` and, where the append mode is among
    /// them, clear it. Answer: [`Reply::Flags`], with the flags as they were
    /// if the append mode was cleared and `None` if nothing was changed.
    ClearAppend { fd: i32 },
    /// Give `fd` these status flags. Answer: [`Reply::Done`].
    SetFlags { fd: i32, flags: i32 },
    /// Start the four transfer loops of these two lanes, each as a task of
    /// its own, all on one cancellation flag that is not set.
    /// Answer: [`Reply::Done`].
    Launch { to_peer: Lane, to_master: Lane },
    /// Set the cancellation flag. Answer: [`Reply::Done`].
    Cancel,
}

/// The answer to a request.
#[derive(Debug, PartialEq, Eq)]
pub enum Reply {
    /// The terminal attributes that were read.
    Attrs(TermAttrs),
    /// The window geometry that was read.
    Geometry(WinSize),
    /// The pseudo-terminal that was allocated.
    Pty(PtyPair),
    /// The pipe that was opened.
    Pipe(Pipe),
    /// The status flags before the append mode was cleared, or `None` if it
    /// was not set.
    Flags(Option<i32>),
    /// The operation was performed and has nothing to tell.
    Done,
    /// The operation failed, with the system's error number if it gave one.
    Failed(Option<i32>),
}

impl Reply {
    /// The error that ends a construction at `stage` on this answer, where
    /// it does not move the construction on: it carries the system's error
    /// number where the answer is a failure that has one, none otherwise.
    pub open spec fn spec_failure(self, stage: Stage) -> TtyError {
        TtyError::SetupFailure {
            stage,
            code: match self {
                Reply::Failed(code) => code,
                _ => None,
            },
        }
    }

    /// The error that ends a construction at `stage` on this answer.
    pub fn failure(&self, stage: Stage) -> (e: TtyError)
        ensures
            e == self.spec_failure(stage),
    {
        let code = match self {
            Reply::Failed(code) => *code,
            _ => None,
        };
        TtyError::SetupFailure { stage, code }
    }
}

/// The terminal attributes that `plan` last gives to `fd`, or `None` where
/// it gives it none and so leaves its attributes as they are.
pub open spec fn attrs_given(plan: Seq<Request>, fd: i32) -> Option<TermAttrs>
    decreases plan.len(),
{
    if plan.len() == 0 {
        None
    } else {
        match plan.last() {
            Request::WriteAttrs { fd: to, attrs, .. } => if to == fd {
                Some(attrs)
            } else {
                attrs_given(plan.drop_last(), fd)
            },
            _ => attrs_given(plan.drop_last(), fd),
        }
    }
}

/// The status flags that `plan` last gives to `fd`, or `None` where it gives
/// it none and so leaves its flags as they are.
pub open spec fn flags_given(plan: Seq<Request>, fd: i32) -> Option<i32>
    decreases plan.len(),
{
    if plan.len() == 0 {
        None
    } else {
        match plan.last() {
            Request::SetFlags { fd: to, flags } => if to == fd {
                Some(flags)
            } else {
                flags_given(plan.drop_last(), fd)
            },
            _ => flags_given(plan.drop_last(), fd),
        }
    }
}

/// Whether every operation of `plan` sets the cancellation flag or gives a
/// descriptor what it had: none reads, opens, clears or starts anything.
pub open spec fn only_restores(plan: Seq<Request>) -> bool {
    forall|i: int|
        0 <= i < plan.len() ==> (#[trigger] plan[i] is Cancel || plan[i] is WriteAttrs
            || plan[i] is SetFlags)
}

} // verus!
