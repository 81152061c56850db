//! One transfer loop: what it does at each turn.
//!
//! A loop moves bytes from its source to its sink, one bounded transfer at a
//! time. Between transfers it looks at the cancellation flag that it shares
//! with the other loops. The transfers and the flag are the caller's; the
//! decisions are made here.

use vstd::prelude::*;
use crate::handle::{Handle, Pipe};

verus! {

/// The most bytes that one transfer is asked to move.
pub const CHUNK: usize = 1024;

/// How a transfer ended.
#[derive(Clone, Copy, Debug, PartialEq, Eq)]
pub enum TransferOutcome {
    /// So many bytes went from the source to the sink; none means that the
    /// source is at its end.
    Moved(usize),
    /// The transfer failed.
    Failed,
}

impl TransferOutcome {
    /// The source has nothing more to give: it is at its end, or the
    /// transfer failed, which is handled alike.
    pub open spec fn ends_input(self) -> bool {
        match self {
            TransferOutcome::Moved(n) => n == 0,
            TransferOutcome::Failed => true,
        }
    }
}

/// What a loop does next.
#[derive(Clone, Copy, Debug, PartialEq, Eq)]
pub enum Step {
    /// Move up to `limit` bytes from `source` to `sink`, then take another
    /// turn with the outcome.
    Transfer { source: i32, sink: i32, limit: usize },
    /// Leave the loop. With `raise` set the cancellation flag first; with
    /// `notify` post to the stopped notification afterwards.
    Exit { raise: bool, notify: bool },
}

/// A transfer loop.
#[derive(Clone, Copy, Debug, PartialEq, Eq)]
pub struct Worker {
    /// Where the bytes come from.
    pub source: Handle,
    /// Where the bytes go.
    pub sink: Handle,
    /// Whether this loop posts to the stopped notification when it leaves.
    pub notifies: bool,
    /// Whether this loop has left.
    pub exited: bool,
}

impl Worker {
    /// A loop that has not started yet.
    pub fn new(source: Handle, sink: Handle, notifies: bool) -> (w: Worker)
        ensures
            w == (Worker { source, sink, notifies, exited: false }),
    {
        Worker { source, sink, notifies, exited: false }
    }

    /// Whether the loop leaves at this turn: it has not left before, and the
    /// flag is set or the last transfer ended the input.
    pub open spec fn leaves(self, cancelled: bool, last: Option<TransferOutcome>) -> bool {
        !self.exited && (cancelled || (last matches Some(o) && o.ends_input()))
    }

    /// The loop after a turn.
    pub open spec fn spec_after(self, cancelled: bool, last: Option<TransferOutcome>) -> Worker {
        Worker {
            source: self.source,
            sink: self.sink,
            notifies: self.notifies,
            exited: self.exited || self.leaves(cancelled, last),
        }
    }

    /// What the loop does at a turn.
    pub open spec fn spec_step(self, cancelled: bool, last: Option<TransferOutcome>) -> Step {
        if self.exited {
            Step::Exit { raise: false, notify: false }
        } else if self.leaves(cancelled, last) {
            Step::Exit { raise: !cancelled, notify: self.notifies }
        } else {
            Step::Transfer { source: self.source.fd, sink: self.sink.fd, limit: CHUNK }
        }
    }

    /// Takes a turn. `cancelled` is the cancellation flag as just read;
    /// `last` is the outcome of the transfer that the turn before asked for,
    /// and `None` at the first turn.
    ///
    /// A loop that has left stays out and asks for nothing more. Otherwise it
    /// leaves when the flag is set or the last transfer ended the input; it
    /// then raises the flag unless it is set already, and posts if it is the
    /// loop that notifies. Otherwise it asks for one more transfer.
    pub fn step(&mut self, cancelled: bool, last: Option<TransferOutcome>) -> (s: Step)
        ensures
            *final(self) == old(self).spec_after(cancelled, last),
            s == old(self).spec_step(cancelled, last),
    {
        if self.exited {
            return Step::Exit { raise: false, notify: false };
        }
        let ended = match last {
            Some(TransferOutcome::Moved(n)) => n == 0,
            Some(TransferOutcome::Failed) => true,
            None => false,
        };
        if cancelled || ended {
            self.exited = true;
            Step::Exit { raise: !cancelled, notify: self.notifies }
        } else {
            Step::Transfer { source: self.source.fd, sink: self.sink.fd, limit: CHUNK }
        }
    }
}

/// One direction of a binding: two loops chained through a pipe. The first
/// moves bytes from the source into the pipe, the second from the pipe to
/// the destination, so that each end's loop deals with that end alone.
#[derive(Clone, Copy, Debug, PartialEq, Eq)]
pub struct Lane {
    /// The loop from the source into the pipe.
    pub intake: Worker,
    /// The loop from the pipe to the destination.
    pub outlet: Worker,
}

impl Lane {
    /// The lane from `source` to `sink` through `pipe`. The two ends are
    /// lent to the loops; each loop owns its end of the pipe.
    pub open spec fn spec_chain(source: Handle, pipe: Pipe, sink: Handle, notifies: bool) -> Lane {
        Lane {
            intake: Worker {
                source: Handle { fd: source.fd, owned: false },
                sink: Handle { fd: pipe.writer, owned: true },
                notifies: false,
                exited: false,
            },
            outlet: Worker {
                source: Handle { fd: pipe.reader, owned: true },
                sink: Handle { fd: sink.fd, owned: false },
                notifies,
                exited: false,
            },
        }
    }

    /// Chains two loops through `pipe`. With `notifies` the second loop
    /// posts to the stopped notification when it leaves.
    pub fn chain(source: Handle, pipe: Pipe, sink: Handle, notifies: bool) -> (lane: Lane)
        ensures
            lane == Self::spec_chain(source, pipe, sink, notifies),
    {
        Lane {
            intake: Worker::new(source.lend(), Handle::owned(pipe.writer), false),
            outlet: Worker::new(Handle::owned(pipe.reader), sink.lend(), notifies),
        }
    }
}

/// A loop asks for a transfer exactly when it has not left, the flag is not
/// set and the last transfer, if there was one, moved bytes; the transfer
/// is then from its source to its sink. In every other case it is out after
/// the turn. It raises the flag exactly when it leaves on the end of its
/// input with the flag not set, and it posts exactly when it is the loop
/// that notifies and leaves at this turn.
pub proof fn lemma_turn_by_turn(w: Worker, cancelled: bool, last: Option<TransferOutcome>)
    ensures
        w.spec_step(cancelled, last) is Transfer <==> !w.exited && !cancelled && !(last matches Some(
            o,
        ) && o.ends_input()),
        w.spec_step(cancelled, last) is Transfer ==> w.spec_step(cancelled, last) == (Step::Transfer {
            source: w.source.fd,
            sink: w.sink.fd,
            limit: CHUNK,
        }),
        w.spec_after(cancelled, last).exited <==> !(w.spec_step(cancelled, last) is Transfer),
        w.spec_step(cancelled, last) matches Step::Exit { raise, notify } ==> {
            &&& raise <==> !w.exited && !cancelled && (last matches Some(o) && o.ends_input())
            &&& notify <==> !w.exited && w.notifies
        },
        w.spec_after(cancelled, last).source == w.source,
        w.spec_after(cancelled, last).sink == w.sink,
        w.spec_after(cancelled, last).notifies == w.notifies,
{
}

/// A loop that has left stays out: at every later turn, whatever the flag
/// and whatever it is told of a transfer, it asks for no transfer, raises
/// nothing and posts nothing.
pub proof fn lemma_out_is_out(w: Worker, cancelled: bool, last: Option<TransferOutcome>)
    requires
        w.exited,
    ensures
        w.spec_after(cancelled, last) == w,
        w.spec_step(cancelled, last) == (Step::Exit { raise: false, notify: false }),
{
}

} // verus!
