//! What can go wrong, and at which step of a construction.

use vstd::prelude::*;

verus! {

/// A step in the construction of a server or of a terminal binding.
#[derive(Clone, Copy, Debug, PartialEq, Eq)]
pub enum Stage {
    /// Reading the terminal attributes of the template.
    QueryAttrs,
    /// Reading the window geometry of the template.
    QueryGeometry,
    /// Allocating the pseudo-terminal.
    AllocatePty,
    /// Reading the peer's terminal attributes, to keep them.
    Snapshot,
    /// Putting the peer into raw mode.
    ApplyRaw,
    /// Opening the pipe that carries bytes towards the peer.
    PipeToPeer,
    /// Opening the pipe that carries bytes towards the master.
    PipeToMaster,
    /// Clearing the append mode of the peer.
    ClearPeerAppend,
    /// Clearing the append mode of the master.
    ClearMasterAppend,
    /// Starting the transfer loops.
    Launch,
}

/// The errors that reach a caller.
#[derive(Clone, Copy, Debug, PartialEq, Eq)]
pub enum TtyError {
    /// A step of a construction failed. `code` is the error number that the
    /// system gave; `None` where it gave none, or where the step was answered
    /// with a reply of another kind.
    SetupFailure { stage: Stage, code: Option<i32> },
    /// The slave end was asked for after it had been handed out.
    SlaveAlreadyConsumed,
}

} // verus!
