//! A running binding as a whole: the cancellation flag, the stopped
//! notification and the loops, and how they move together.
//!
//! The loops run side by side and share the flag alone. Here their turns are
//! taken one after another, in any order, and a loop may act on a value of
//! the flag that it read before another loop set it.
//!
//! The bytes themselves never pass through the library. What is said of
//! them here is said of a lane in which a transfer moves the bytes at the
//! head of what its source holds to the end of what its sink holds.

use vstd::prelude::*;
use crate::client::Wait;
use crate::handle::{Handle, Pipe};
use crate::worker::{Lane, Step, TransferOutcome, Worker, CHUNK};

verus! {

/// Where a binding stands.
pub enum Phase {
    /// The flag is not set and every loop runs.
    Active,
    /// The flag is set and some loop has not left yet.
    Stopping,
    /// The flag is set and every loop has left.
    Stopped,
}

impl Phase {
    /// The order of the phases.
    pub open spec fn rank(self) -> int {
        match self {
            Phase::Active => 0,
            Phase::Stopping => 1,
            Phase::Stopped => 2,
        }
    }
}

/// The bytes of one direction, from where they are written to where they
/// arrive.
pub struct Flow {
    /// Written at the source and not yet moved into the pipe.
    pub pending: Seq<u8>,
    /// In the pipe.
    pub piped: Seq<u8>,
    /// Arrived at the destination.
    pub delivered: Seq<u8>,
}

impl Flow {
    /// Nothing written yet.
    pub open spec fn empty() -> Flow {
        Flow { pending: Seq::empty(), piped: Seq::empty(), delivered: Seq::empty() }
    }

    /// All the bytes of the direction, those that have come furthest first.
    pub open spec fn all(self) -> Seq<u8> {
        self.delivered + self.piped + self.pending
    }

    /// `bytes` are written at the source.
    pub open spec fn offer(self, bytes: Seq<u8>) -> Flow {
        Flow { pending: self.pending + bytes, piped: self.piped, delivered: self.delivered }
    }

    /// The first loop moves `n` bytes from the source into the pipe.
    pub open spec fn take_in(self, n: int) -> Flow {
        Flow {
            pending: self.pending.skip(n),
            piped: self.piped + self.pending.take(n),
            delivered: self.delivered,
        }
    }

    /// The second loop moves `n` bytes from the pipe to the destination.
    pub open spec fn let_out(self, n: int) -> Flow {
        Flow {
            pending: self.pending,
            piped: self.piped.skip(n),
            delivered: self.delivered + self.piped.take(n),
        }
    }
}

/// What happens to a running binding.
pub enum Event {
    /// Bytes are written where a lane reads them: at the master, for the
    /// lane towards the peer, or at the peer, for the lane towards the
    /// master.
    Write { towards_peer: bool, bytes: Seq<u8> },
    /// The loop `worker` takes a turn. It read the flag as `seen` and was
    /// told `last` of its last transfer.
    Turn { worker: int, seen: bool, last: Option<TransferOutcome> },
    /// The binding is disposed of: its teardown sets the flag.
    Dispose,
}

/// A running binding.
pub struct Binding {
    /// The cancellation flag.
    pub cancelled: bool,
    /// Whether the stopped notification was posted.
    pub posted: bool,
    /// The loops: the two of the lane towards the peer, then the two of the
    /// lane towards the master.
    pub workers: Seq<Worker>,
    /// The bytes on their way to the peer.
    pub to_peer: Flow,
    /// The bytes on their way to the master.
    pub to_master: Flow,
}

impl Binding {
    /// The binding as its loops are started: the flag not set, nothing
    /// posted, the two loops towards the peer and the two towards the
    /// master.
    pub open spec fn launched(to_peer: Lane, to_master: Lane) -> Binding {
        Binding {
            cancelled: false,
            posted: false,
            workers: seq![to_peer.intake, to_peer.outlet, to_master.intake, to_master.outlet],
            to_peer: Flow::empty(),
            to_master: Flow::empty(),
        }
    }

    /// The number of bytes that the loop `worker` moved in the transfer of
    /// which it tells `last`: none if it has left, or if the transfer moved
    /// none or failed.
    pub open spec fn moved(self, worker: int, last: Option<TransferOutcome>) -> int {
        if 0 <= worker < self.workers.len() && !self.workers[worker].exited {
            match last {
                Some(TransferOutcome::Moved(n)) => n as int,
                _ => 0,
            }
        } else {
            0
        }
    }

    /// The number of bytes that the loop `worker` can move: what its source
    /// holds.
    pub open spec fn available(self, worker: int) -> int {
        if worker == 0 {
            self.to_peer.pending.len() as int
        } else if worker == 1 {
            self.to_peer.piped.len() as int
        } else if worker == 2 {
            self.to_master.pending.len() as int
        } else if worker == 3 {
            self.to_master.piped.len() as int
        } else {
            0
        }
    }

    /// The bytes on their way to the peer after the loop `worker` moved
    /// `n`.
    pub open spec fn to_peer_after(self, worker: int, n: int) -> Flow {
        if n > 0 && worker == 0 {
            self.to_peer.take_in(n)
        } else if n > 0 && worker == 1 {
            self.to_peer.let_out(n)
        } else {
            self.to_peer
        }
    }

    /// The bytes on their way to the master after the loop `worker` moved
    /// `n`.
    pub open spec fn to_master_after(self, worker: int, n: int) -> Flow {
        if n > 0 && worker == 2 {
            self.to_master.take_in(n)
        } else if n > 0 && worker == 3 {
            self.to_master.let_out(n)
        } else {
            self.to_master
        }
    }

    /// What holds of a binding at all times: a loop has left only with the
    /// flag set, and the loop that notifies has left only with the
    /// notification posted.
    pub open spec fn wf(self) -> bool {
        forall|i: int|
            0 <= i < self.workers.len() && (#[trigger] self.workers[i]).exited ==> self.cancelled
                && (self.workers[i].notifies ==> self.posted)
    }

    /// Whether every loop has left.
    pub open spec fn all_out(self) -> bool {
        forall|i: int| 0 <= i < self.workers.len() ==> (#[trigger] self.workers[i]).exited
    }

    /// Where the binding stands.
    pub open spec fn phase(self) -> Phase {
        if !self.cancelled {
            Phase::Active
        } else if self.all_out() {
            Phase::Stopped
        } else {
            Phase::Stopping
        }
    }

    /// Whether `e` can happen now: a turn is taken by one of the loops, on a
    /// value of the flag that the flag has or had, after a transfer that
    /// moved no more than it was asked to and no more than its source held.
    /// The flag is never cleared, so a loop that read it set finds it set.
    pub open spec fn admits(self, e: Event) -> bool {
        match e {
            Event::Write { .. } => true,
            Event::Turn { worker, seen, last } => {
                &&& 0 <= worker < self.workers.len()
                &&& seen ==> self.cancelled
                &&& self.moved(worker, last) <= CHUNK
                &&& self.moved(worker, last) <= self.available(worker)
            },
            Event::Dispose => true,
        }
    }

    /// The binding after `e`.
    pub open spec fn after(self, e: Event) -> Binding {
        match e {
            Event::Write { towards_peer, bytes } => Binding {
                cancelled: self.cancelled,
                posted: self.posted,
                workers: self.workers,
                to_peer: if towards_peer {
                    self.to_peer.offer(bytes)
                } else {
                    self.to_peer
                },
                to_master: if towards_peer {
                    self.to_master
                } else {
                    self.to_master.offer(bytes)
                },
            },
            Event::Turn { worker, seen, last } => if 0 <= worker < self.workers.len() {
                let w = self.workers[worker];
                let step = w.spec_step(seen, last);
                Binding {
                    cancelled: self.cancelled || (step matches Step::Exit { raise, .. } && raise),
                    posted: self.posted || (step matches Step::Exit { notify, .. } && notify),
                    workers: self.workers.update(worker, w.spec_after(seen, last)),
                    to_peer: self.to_peer_after(worker, self.moved(worker, last)),
                    to_master: self.to_master_after(worker, self.moved(worker, last)),
                }
            } else {
                self
            },
            Event::Dispose => Binding {
                cancelled: true,
                posted: self.posted,
                workers: self.workers,
                to_peer: self.to_peer,
                to_master: self.to_master,
            },
        }
    }

    /// Whether the events of `es` can happen one after another.
    pub open spec fn admits_all(self, es: Seq<Event>) -> bool
        decreases es.len(),
    {
        es.len() == 0 || (self.admits_all(es.drop_last()) && self.run(es.drop_last()).admits(
            es.last(),
        ))
    }

    /// The binding after the events of `es`, one after another.
    pub open spec fn run(self, es: Seq<Event>) -> Binding
        decreases es.len(),
    {
        if es.len() == 0 {
            self
        } else {
            self.run(es.drop_last()).after(es.last())
        }
    }

    /// The binding after each of its first `n` loops has taken one turn on
    /// the flag as set, the loop `k` being told `lasts[k]` of its last
    /// transfer.
    pub open spec fn drained(self, lasts: Seq<Option<TransferOutcome>>, n: int) -> Binding
        decreases n,
    {
        if n <= 0 {
            self
        } else {
            self.drained(lasts, n - 1).after(
                Event::Turn { worker: n - 1, seen: true, last: lasts[n - 1] },
            )
        }
    }
}

/// The bytes written in `es` where the lane towards the peer reads them, if
/// `towards_peer`, or where the lane towards the master does, in the order in
/// which they were written.
pub open spec fn written(es: Seq<Event>, towards_peer: bool) -> Seq<u8>
    decreases es.len(),
{
    if es.len() == 0 {
        Seq::empty()
    } else {
        match es.last() {
            Event::Write { towards_peer: to, bytes } => if to == towards_peer {
                written(es.drop_last(), towards_peer) + bytes
            } else {
                written(es.drop_last(), towards_peer)
            },
            _ => written(es.drop_last(), towards_peer),
        }
    }
}

/// A binding starts active: four loops, none of which has left, the flag
/// not set and nothing posted.
pub proof fn lemma_starts_active(to_peer: Lane, to_master: Lane)
    requires
        !to_peer.intake.exited,
        !to_peer.outlet.exited,
        !to_master.intake.exited,
        !to_master.outlet.exited,
    ensures
        Binding::launched(to_peer, to_master).workers.len() == 4,
        Binding::launched(to_peer, to_master).wf(),
        Binding::launched(to_peer, to_master).phase() == Phase::Active,
{
}

/// The binding that a construction starts is active, and the last of its
/// loops is the one that notifies.
pub proof fn lemma_new_binding_is_active(
    master: Handle,
    peer: Handle,
    to_peer: Pipe,
    to_master: Pipe,
)
    ensures
        ({
            let b = Binding::launched(
                Lane::spec_chain(master, to_peer, peer, false),
                Lane::spec_chain(peer, to_master, master, true),
            );
            &&& b.wf()
            &&& b.phase() == Phase::Active
            &&& b.workers.len() == 4
            &&& b.workers[3].notifies
            &&& !b.workers[0].notifies && !b.workers[1].notifies && !b.workers[2].notifies
        }),
{
}

/// While a binding is active every loop runs.
pub proof fn lemma_active_means_all_run(b: Binding, i: int)
    requires
        b.wf(),
        b.phase() == Phase::Active,
        0 <= i < b.workers.len(),
    ensures
        !b.cancelled,
        !b.workers[i].exited,
{
}

/// One event keeps what holds at all times, keeps the number of loops and
/// what each loop is bound to, never takes back a loop that has left, never
/// clears the flag and never withdraws the notification. This needs of a
/// turn only that the loop read the flag as set no sooner than it was set.
pub proof fn lemma_event_keeps_order(b: Binding, e: Event)
    requires
        b.wf(),
        e matches Event::Turn { seen, .. } ==> (seen ==> b.cancelled),
    ensures
        b.after(e).wf(),
        b.after(e).workers.len() == b.workers.len(),
        b.cancelled ==> b.after(e).cancelled,
        b.posted ==> b.after(e).posted,
        forall|i: int|
            0 <= i < b.workers.len() ==> {
                &&& (#[trigger] b.after(e).workers[i]).source == b.workers[i].source
                &&& b.after(e).workers[i].sink == b.workers[i].sink
                &&& b.after(e).workers[i].notifies == b.workers[i].notifies
                &&& b.workers[i].exited ==> b.after(e).workers[i].exited
            },
{
}

/// The same of a run of events.
pub proof fn lemma_run_keeps_order(b: Binding, es: Seq<Event>)
    requires
        b.wf(),
        b.admits_all(es),
    ensures
        b.run(es).wf(),
        b.run(es).workers.len() == b.workers.len(),
        b.cancelled ==> b.run(es).cancelled,
        b.posted ==> b.run(es).posted,
        forall|i: int|
            0 <= i < b.workers.len() ==> {
                &&& (#[trigger] b.run(es).workers[i]).source == b.workers[i].source
                &&& b.run(es).workers[i].sink == b.workers[i].sink
                &&& b.run(es).workers[i].notifies == b.workers[i].notifies
                &&& b.workers[i].exited ==> b.run(es).workers[i].exited
            },
    decreases es.len(),
{
    if es.len() > 0 {
        lemma_run_keeps_order(b, es.drop_last());
        lemma_event_keeps_order(b.run(es.drop_last()), es.last());
    }
}

/// A binding never goes back: from active it can only go to stopping or
/// stopped, from stopping only to stopped, and stopped it stays.
pub proof fn lemma_phase_never_goes_back(b: Binding, es: Seq<Event>)
    requires
        b.wf(),
        b.admits_all(es),
    ensures
        b.phase().rank() <= b.run(es).phase().rank(),
{
    lemma_run_keeps_order(b, es);
}

/// The flag is set once and for all, by whoever sets it: a loop that leaves
/// on the end of its input, or the teardown. Setting it when it is set
/// changes nothing, so that two loops that both set it, each having read it
/// unset, leave what one of them leaves, in either order.
pub proof fn lemma_raising_twice_is_raising_once(
    b: Binding,
    i: int,
    j: int,
    first: TransferOutcome,
    second: TransferOutcome,
)
    requires
        b.wf(),
        0 <= i < b.workers.len(),
        0 <= j < b.workers.len(),
        i != j,
        !b.workers[i].exited,
        !b.workers[j].exited,
        first.ends_input(),
        second.ends_input(),
    ensures
        ({
            let one = Event::Turn { worker: i, seen: false, last: Some(first) };
            let other = Event::Turn { worker: j, seen: false, last: Some(second) };
            &&& b.workers[i].spec_step(false, Some(first)) matches Step::Exit { raise: true, .. }
            &&& b.after(one).workers[j].spec_step(false, Some(second)) matches Step::Exit {
                raise: true,
                ..
            }
            &&& b.after(one).admits(other)
            &&& b.after(one).cancelled
            &&& b.after(one).after(other).cancelled == b.after(one).cancelled
            &&& b.after(one).after(other) == b.after(other).after(one)
            &&& b.after(one).after(Event::Dispose).cancelled == b.after(one).cancelled
        }),
{
    let one = Event::Turn { worker: i, seen: false, last: Some(first) };
    let other = Event::Turn { worker: j, seen: false, last: Some(second) };
    assert(b.after(one).after(other).workers =~= b.after(other).after(one).workers);
}

/// When a loop finds its input at its end, or its transfer failed, it leaves
/// and the flag is set. From then on, whatever happens, that loop asks for
/// no further transfer, the flag stays set, and a caller of `wait` returns
/// without blocking.
pub proof fn lemma_end_of_input_stops_the_binding(
    b: Binding,
    i: int,
    seen: bool,
    outcome: TransferOutcome,
    es: Seq<Event>,
    later_seen: bool,
    later_last: Option<TransferOutcome>,
)
    requires
        b.wf(),
        0 <= i < b.workers.len(),
        !b.workers[i].exited,
        seen ==> b.cancelled,
        outcome.ends_input(),
        b.after(Event::Turn { worker: i, seen, last: Some(outcome) }).admits_all(es),
    ensures
        ({
            let stopped = b.after(Event::Turn { worker: i, seen, last: Some(outcome) });
            &&& b.workers[i].spec_step(seen, Some(outcome)) is Exit
            &&& stopped.cancelled
            &&& stopped.workers[i].exited
            &&& stopped.phase() != Phase::Active
            &&& stopped.run(es).cancelled
            &&& stopped.run(es).workers[i].exited
            &&& stopped.run(es).workers[i].spec_step(later_seen, later_last) == (Step::Exit {
                raise: false,
                notify: false,
            })
            &&& Wait::given(stopped.run(es).cancelled) == Wait::Return
        }),
{
    let e = Event::Turn { worker: i, seen, last: Some(outcome) };
    lemma_event_keeps_order(b, e);
    lemma_run_keeps_order(b.after(e), es);
}

/// Once the flag is set the binding stops within one turn of each loop: a
/// loop that takes a turn on the flag as set leaves without a transfer, and
/// when each loop has taken such a turn the binding has stopped. If one of
/// the loops notifies, the notification has then been posted.
pub proof fn lemma_shutdown_is_bounded(b: Binding, lasts: Seq<Option<TransferOutcome>>)
    requires
        b.wf(),
        b.cancelled,
        lasts.len() == b.workers.len(),
    ensures
        b.drained(lasts, b.workers.len() as int).phase() == Phase::Stopped,
        forall|k: int|
            0 <= k < b.workers.len() ==> !(#[trigger] b.workers[k].spec_step(true, lasts[k])
                is Transfer),
        (exists|k: int| 0 <= k < b.workers.len() && (#[trigger] b.workers[k]).notifies)
            ==> b.drained(lasts, b.workers.len() as int).posted,
{
    let n = b.workers.len() as int;
    lemma_drained(b, lasts, n);
    let end = b.drained(lasts, n);
    if exists|k: int| 0 <= k < b.workers.len() && (#[trigger] b.workers[k]).notifies {
        let k = choose|k: int| 0 <= k < b.workers.len() && (#[trigger] b.workers[k]).notifies;
        assert(end.workers[k].exited && end.workers[k].notifies);
    }
}

/// After the first `n` loops have each taken a turn on the flag as set,
/// they are out, and the binding is in order.
proof fn lemma_drained(b: Binding, lasts: Seq<Option<TransferOutcome>>, n: int)
    requires
        b.wf(),
        b.cancelled,
        lasts.len() == b.workers.len(),
        0 <= n <= b.workers.len(),
    ensures
        b.drained(lasts, n).wf(),
        b.drained(lasts, n).cancelled,
        b.drained(lasts, n).workers.len() == b.workers.len(),
        forall|k: int| 0 <= k < n ==> (#[trigger] b.drained(lasts, n).workers[k]).exited,
        forall|k: int|
            0 <= k < b.workers.len() ==> (#[trigger] b.drained(lasts, n).workers[k]).notifies
                == b.workers[k].notifies,
    decreases n,
{
    if n > 0 {
        lemma_drained(b, lasts, n - 1);
        lemma_event_keeps_order(
            b.drained(lasts, n - 1),
            Event::Turn { worker: n - 1, seen: true, last: lasts[n - 1] },
        );
    }
}

/// A caller of `wait` returns without blocking whenever the binding is not
/// active, and any number of times: once the flag is set, it is set after
/// every run of events, and `wait` on a set flag returns.
pub proof fn lemma_wait_returns_once_stopped(b: Binding, es: Seq<Event>)
    requires
        b.wf(),
        b.phase() != Phase::Active,
        b.admits_all(es),
    ensures
        Wait::given(b.cancelled) == Wait::Return,
        Wait::given(b.run(es).cancelled) == Wait::Return,
        b.run(es).phase() != Phase::Active,
{
    lemma_run_keeps_order(b, es);
}

/// One event moves bytes along a lane or adds bytes at its source, and
/// does nothing else to them: in each direction, the bytes that have
/// arrived, those in the pipe and those still at the source, taken in this
/// order, are what they were, with what the event wrote behind them.
pub proof fn lemma_event_keeps_bytes(b: Binding, e: Event)
    requires
        b.admits(e),
    ensures
        b.after(e).to_peer.all() == b.to_peer.all() + written(seq![e], true),
        b.after(e).to_master.all() == b.to_master.all() + written(seq![e], false),
        b.to_peer.delivered.is_prefix_of(b.after(e).to_peer.delivered),
        b.to_master.delivered.is_prefix_of(b.after(e).to_master.delivered),
{
    reveal_with_fuel(written, 2);
    if let Event::Turn { worker, last, .. } = e {
        let n = b.moved(worker, last);
        if n > 0 {
            lemma_moving_keeps_bytes(b.to_peer, n);
            lemma_moving_keeps_bytes(b.to_master, n);
        }
    }
}

/// Moving bytes from the source into the pipe, or from the pipe to the
/// destination, changes neither the bytes nor their order.
proof fn lemma_moving_keeps_bytes(f: Flow, n: int)
    requires
        0 < n,
    ensures
        n <= f.pending.len() ==> f.take_in(n).all() == f.all(),
        n <= f.piped.len() ==> f.let_out(n).all() == f.all(),
        f.delivered.is_prefix_of(f.let_out(n).delivered),
{
}

/// The bytes of two runs of events, one after the other, are those of the
/// first and then those of the second.
proof fn lemma_written_one_more(es: Seq<Event>, towards_peer: bool)
    requires
        es.len() > 0,
    ensures
        written(es, towards_peer) == written(es.drop_last(), towards_peer) + written(
            seq![es.last()],
            towards_peer,
        ),
{
    reveal_with_fuel(written, 2);
}

/// Each direction carries its bytes unchanged and in order, whatever the
/// other direction does and however the turns of the loops fall: after any
/// run of events, the bytes that have arrived, those in the pipe and those
/// still at the source are, in this order, the bytes that the direction held
/// before and then those written since. What has arrived is so a leading
/// part of what was written, and what had arrived before still leads it.
pub proof fn lemma_bytes_arrive_in_order(b: Binding, es: Seq<Event>)
    requires
        b.wf(),
        b.admits_all(es),
    ensures
        b.run(es).to_peer.all() == b.to_peer.all() + written(es, true),
        b.run(es).to_master.all() == b.to_master.all() + written(es, false),
        b.run(es).to_peer.delivered.is_prefix_of(b.to_peer.all() + written(es, true)),
        b.run(es).to_master.delivered.is_prefix_of(b.to_master.all() + written(es, false)),
        b.to_peer.delivered.is_prefix_of(b.run(es).to_peer.delivered),
        b.to_master.delivered.is_prefix_of(b.run(es).to_master.delivered),
    decreases es.len(),
{
    if es.len() > 0 {
        lemma_bytes_arrive_in_order(b, es.drop_last());
        lemma_event_keeps_bytes(b.run(es.drop_last()), es.last());
        lemma_written_one_more(es, true);
        lemma_written_one_more(es, false);
    }
}

/// Of a binding as it is started: what has arrived at the peer is a leading
/// part of what was written at the master, and what has arrived at the
/// master is a leading part of what was written at the peer.
pub proof fn lemma_byte_transparency(to_peer: Lane, to_master: Lane, es: Seq<Event>)
    requires
        !to_peer.intake.exited,
        !to_peer.outlet.exited,
        !to_master.intake.exited,
        !to_master.outlet.exited,
        Binding::launched(to_peer, to_master).admits_all(es),
    ensures
        Binding::launched(to_peer, to_master).run(es).to_peer.delivered.is_prefix_of(
            written(es, true),
        ),
        Binding::launched(to_peer, to_master).run(es).to_master.delivered.is_prefix_of(
            written(es, false),
        ),
{
    let b = Binding::launched(to_peer, to_master);
    lemma_starts_active(to_peer, to_master);
    lemma_bytes_arrive_in_order(b, es);
}

} // verus!
