//! The terminal proxy: a master end bound to a peer terminal.
//!
//! Binding puts the peer into raw mode and runs two lanes of transfer loops,
//! one towards the peer and one towards the master, on one cancellation
//! flag. The binding keeps what it changed, and its teardown puts it back.

use vstd::prelude::*;
use crate::error::{Stage, TtyError};
use crate::handle::{Handle, Pipe};
use crate::protocol::{attrs_given, flags_given, only_restores, Reply, Request};
use crate::termattrs::TermAttrs;
use crate::worker::Lane;

verus! {

/// What a binding keeps from its construction.
#[derive(Clone, Copy, Debug, PartialEq, Eq)]
pub struct ClientState {
    /// The master end.
    pub master: Handle,
    /// The peer end.
    pub peer: Handle,
    /// The status flags of the master before its append mode was cleared;
    /// `None` if it was not set.
    pub master_status: Option<i32>,
    /// The status flags of the peer before its append mode was cleared;
    /// `None` if it was not set.
    pub peer_status: Option<i32>,
    /// The terminal attributes of the peer before it was put into raw mode.
    pub snapshot: TermAttrs,
}

impl ClientState {
    /// The operations of a teardown, in their order: set the cancellation
    /// flag, give the peer its attributes back, then give each end its
    /// status flags back where its append mode was cleared, the peer first.
    pub open spec fn spec_teardown(self) -> Seq<Request> {
        seq![
            Request::Cancel,
            Request::WriteAttrs { fd: self.peer.fd, attrs: self.snapshot, flush: true },
        ] + restore_flags(self.peer.fd, self.peer_status) + restore_flags(
            self.master.fd,
            self.master_status,
        )
    }
}

/// The operations that give `fd` its status flags back: one if they were
/// changed, none if they were not.
pub open spec fn restore_flags(fd: i32, status: Option<i32>) -> Seq<Request> {
    match status {
        Some(flags) => seq![Request::SetFlags { fd, flags }],
        None => Seq::empty(),
    }
}

/// What a caller of `wait` does next.
#[derive(Clone, Copy, Debug, PartialEq, Eq)]
pub enum Wait {
    /// The binding has stopped: return.
    Return,
    /// Block until the stopped notification is posted, then ask again.
    Block,
}

impl Wait {
    /// What a caller of `wait` does when it has read the cancellation flag.
    pub open spec fn given(cancelled: bool) -> Wait {
        if cancelled {
            Wait::Return
        } else {
            Wait::Block
        }
    }
}

/// A master end bound to a peer terminal.
pub struct TtyClient {
    state: ClientState,
}

impl View for TtyClient {
    type V = ClientState;

    closed spec fn view(&self) -> ClientState {
        self.state
    }
}

/// The construction of a binding, step by step.
#[derive(Clone, Copy, Debug, PartialEq, Eq)]
pub enum ClientSetup {
    /// The peer's attributes are to be read and kept.
    Snapshot { master: Handle, peer: Handle },
    /// The peer is to be put into raw mode.
    ApplyRaw { master: Handle, peer: Handle, snapshot: TermAttrs },
    /// The pipe towards the peer is to be opened.
    PipeToPeer { master: Handle, peer: Handle, snapshot: TermAttrs },
    /// The pipe towards the master is to be opened.
    PipeToMaster { master: Handle, peer: Handle, snapshot: TermAttrs, to_peer: Pipe },
    /// The append mode of the peer is to be cleared.
    ClearPeerAppend {
        master: Handle,
        peer: Handle,
        snapshot: TermAttrs,
        to_peer: Pipe,
        to_master: Pipe,
    },
    /// The append mode of the master is to be cleared.
    ClearMasterAppend {
        master: Handle,
        peer: Handle,
        snapshot: TermAttrs,
        to_peer: Pipe,
        to_master: Pipe,
        peer_status: Option<i32>,
    },
    /// The transfer loops are to be started.
    Launch { state: ClientState, to_peer: Pipe, to_master: Pipe },
    /// The binding is there and its loops run.
    Bound(ClientState),
    /// A step failed.
    Failed(TtyError),
}

impl ClientSetup {
    /// The step that the construction is at, while it is under way.
    pub open spec fn spec_stage(self) -> Option<Stage> {
        match self {
            ClientSetup::Snapshot { .. } => Some(Stage::Snapshot),
            ClientSetup::ApplyRaw { .. } => Some(Stage::ApplyRaw),
            ClientSetup::PipeToPeer { .. } => Some(Stage::PipeToPeer),
            ClientSetup::PipeToMaster { .. } => Some(Stage::PipeToMaster),
            ClientSetup::ClearPeerAppend { .. } => Some(Stage::ClearPeerAppend),
            ClientSetup::ClearMasterAppend { .. } => Some(Stage::ClearMasterAppend),
            ClientSetup::Launch { .. } => Some(Stage::Launch),
            ClientSetup::Bound(_) => None,
            ClientSetup::Failed(_) => None,
        }
    }

    /// The operation that the construction needs next.
    pub open spec fn spec_request(self) -> Option<Request> {
        match self {
            ClientSetup::Snapshot { peer, .. } => Some(Request::ReadAttrs { fd: peer.fd }),
            ClientSetup::ApplyRaw { peer, snapshot, .. } => Some(
                Request::WriteAttrs { fd: peer.fd, attrs: snapshot.spec_raw(), flush: true },
            ),
            ClientSetup::PipeToPeer { .. } => Some(Request::OpenPipe),
            ClientSetup::PipeToMaster { .. } => Some(Request::OpenPipe),
            ClientSetup::ClearPeerAppend { peer, .. } => Some(Request::ClearAppend { fd: peer.fd }),
            ClientSetup::ClearMasterAppend { master, .. } => Some(
                Request::ClearAppend { fd: master.fd },
            ),
            ClientSetup::Launch { state, to_peer, to_master } => Some(
                Request::Launch {
                    to_peer: Lane::spec_chain(state.master, to_peer, state.peer, false),
                    to_master: Lane::spec_chain(state.peer, to_master, state.master, true),
                },
            ),
            ClientSetup::Bound(_) => None,
            ClientSetup::Failed(_) => None,
        }
    }

    /// The construction after the answer to its request.
    pub open spec fn spec_advance(self, reply: Reply) -> ClientSetup {
        match self {
            ClientSetup::Snapshot { master, peer } => match reply {
                Reply::Attrs(snapshot) => ClientSetup::ApplyRaw { master, peer, snapshot },
                _ => ClientSetup::Failed(reply.spec_failure(Stage::Snapshot)),
            },
            ClientSetup::ApplyRaw { master, peer, snapshot } => match reply {
                Reply::Done => ClientSetup::PipeToPeer { master, peer, snapshot },
                _ => ClientSetup::Failed(reply.spec_failure(Stage::ApplyRaw)),
            },
            ClientSetup::PipeToPeer { master, peer, snapshot } => match reply {
                Reply::Pipe(to_peer) => ClientSetup::PipeToMaster {
                    master,
                    peer,
                    snapshot,
                    to_peer,
                },
                _ => ClientSetup::Failed(reply.spec_failure(Stage::PipeToPeer)),
            },
            ClientSetup::PipeToMaster { master, peer, snapshot, to_peer } => match reply {
                Reply::Pipe(to_master) => ClientSetup::ClearPeerAppend {
                    master,
                    peer,
                    snapshot,
                    to_peer,
                    to_master,
                },
                _ => ClientSetup::Failed(reply.spec_failure(Stage::PipeToMaster)),
            },
            ClientSetup::ClearPeerAppend { master, peer, snapshot, to_peer, to_master } => match reply {
                Reply::Flags(peer_status) => ClientSetup::ClearMasterAppend {
                    master,
                    peer,
                    snapshot,
                    to_peer,
                    to_master,
                    peer_status,
                },
                _ => ClientSetup::Failed(reply.spec_failure(Stage::ClearPeerAppend)),
            },
            ClientSetup::ClearMasterAppend {
                master,
                peer,
                snapshot,
                to_peer,
                to_master,
                peer_status,
            } => match reply {
                Reply::Flags(master_status) => ClientSetup::Launch {
                    state: ClientState { master, peer, master_status, peer_status, snapshot },
                    to_peer,
                    to_master,
                },
                _ => ClientSetup::Failed(reply.spec_failure(Stage::ClearMasterAppend)),
            },
            ClientSetup::Launch { state, .. } => match reply {
                Reply::Done => ClientSetup::Bound(state),
                _ => ClientSetup::Failed(reply.spec_failure(Stage::Launch)),
            },
            ClientSetup::Bound(_) => self,
            ClientSetup::Failed(_) => self,
        }
    }

    /// The construction after a run of answers, each to the request of the
    /// step that it reached.
    pub open spec fn spec_run(self, replies: Seq<Reply>) -> ClientSetup
        decreases replies.len(),
    {
        if replies.len() == 0 {
            self
        } else {
            self.spec_run(replies.drop_last()).spec_advance(replies.last())
        }
    }

    /// The number of steps that lie behind the construction, while it has
    /// not failed.
    pub open spec fn steps_done(self) -> int {
        match self {
            ClientSetup::Snapshot { .. } => 0,
            ClientSetup::ApplyRaw { .. } => 1,
            ClientSetup::PipeToPeer { .. } => 2,
            ClientSetup::PipeToMaster { .. } => 3,
            ClientSetup::ClearPeerAppend { .. } => 4,
            ClientSetup::ClearMasterAppend { .. } => 5,
            ClientSetup::Launch { .. } => 6,
            ClientSetup::Bound(_) => 7,
            ClientSetup::Failed(_) => -1,
        }
    }

    /// The operation to perform now, or `None` when the construction has
    /// come to its end.
    pub fn request(&self) -> (r: Option<Request>)
        ensures
            r == self.spec_request(),
    {
        match self {
            ClientSetup::Snapshot { peer, .. } => Some(Request::ReadAttrs { fd: peer.fd }),
            ClientSetup::ApplyRaw { peer, snapshot, .. } => Some(
                Request::WriteAttrs { fd: peer.fd, attrs: snapshot.raw(), flush: true },
            ),
            ClientSetup::PipeToPeer { .. } => Some(Request::OpenPipe),
            ClientSetup::PipeToMaster { .. } => Some(Request::OpenPipe),
            ClientSetup::ClearPeerAppend { peer, .. } => Some(Request::ClearAppend { fd: peer.fd }),
            ClientSetup::ClearMasterAppend { master, .. } => Some(
                Request::ClearAppend { fd: master.fd },
            ),
            ClientSetup::Launch { state, to_peer, to_master } => Some(
                Request::Launch {
                    to_peer: Lane::chain(state.master, *to_peer, state.peer, false),
                    to_master: Lane::chain(state.peer, *to_master, state.master, true),
                },
            ),
            ClientSetup::Bound(_) => None,
            ClientSetup::Failed(_) => None,
        }
    }

    /// Takes the answer to the request and moves to the next step.
    ///
    /// The answer of the kind that the request names moves the construction
    /// on. Any other answer, a failure or one of another kind, ends it with
    /// `SetupFailure` at the step at hand. A construction that has come to
    /// its end stays as it is.
    pub fn advance(self, reply: Reply) -> (next: ClientSetup)
        ensures
            next == self.spec_advance(reply),
    {
        match self {
            ClientSetup::Snapshot { master, peer } => match reply {
                Reply::Attrs(snapshot) => ClientSetup::ApplyRaw { master, peer, snapshot },
                other => ClientSetup::Failed(other.failure(Stage::Snapshot)),
            },
            ClientSetup::ApplyRaw { master, peer, snapshot } => match reply {
                Reply::Done => ClientSetup::PipeToPeer { master, peer, snapshot },
                other => ClientSetup::Failed(other.failure(Stage::ApplyRaw)),
            },
            ClientSetup::PipeToPeer { master, peer, snapshot } => match reply {
                Reply::Pipe(to_peer) => ClientSetup::PipeToMaster {
                    master,
                    peer,
                    snapshot,
                    to_peer,
                },
                other => ClientSetup::Failed(other.failure(Stage::PipeToPeer)),
            },
            ClientSetup::PipeToMaster { master, peer, snapshot, to_peer } => match reply {
                Reply::Pipe(to_master) => ClientSetup::ClearPeerAppend {
                    master,
                    peer,
                    snapshot,
                    to_peer,
                    to_master,
                },
                other => ClientSetup::Failed(other.failure(Stage::PipeToMaster)),
            },
            ClientSetup::ClearPeerAppend { master, peer, snapshot, to_peer, to_master } => match reply {
                Reply::Flags(peer_status) => ClientSetup::ClearMasterAppend {
                    master,
                    peer,
                    snapshot,
                    to_peer,
                    to_master,
                    peer_status,
                },
                other => ClientSetup::Failed(other.failure(Stage::ClearPeerAppend)),
            },
            ClientSetup::ClearMasterAppend {
                master,
                peer,
                snapshot,
                to_peer,
                to_master,
                peer_status,
            } => match reply {
                Reply::Flags(master_status) => ClientSetup::Launch {
                    state: ClientState { master, peer, master_status, peer_status, snapshot },
                    to_peer,
                    to_master,
                },
                other => ClientSetup::Failed(other.failure(Stage::ClearMasterAppend)),
            },
            ClientSetup::Launch { state, to_peer, to_master } => match reply {
                Reply::Done => ClientSetup::Bound(state),
                other => ClientSetup::Failed(other.failure(Stage::Launch)),
            },
            ClientSetup::Bound(state) => ClientSetup::Bound(state),
            ClientSetup::Failed(e) => ClientSetup::Failed(e),
        }
    }

    /// Ends the construction: the binding, the error, or `None` while a step
    /// is still to be done.
    pub fn finish(self) -> (r: Option<Result<TtyClient, TtyError>>)
        ensures
            match self {
                ClientSetup::Bound(state) => r matches Some(Ok(client)) && client@ == state,
                ClientSetup::Failed(e) => r == Some(Err::<TtyClient, TtyError>(e)),
                _ => r is None,
            },
    {
        match self {
            ClientSetup::Bound(state) => Some(Ok(TtyClient { state })),
            ClientSetup::Failed(e) => Some(Err(e)),
            _ => None,
        }
    }
}

impl TtyClient {
    /// The construction of a binding, before its first step.
    pub open spec fn spec_new(master: Handle, peer: Handle) -> ClientSetup {
        ClientSetup::Snapshot { master, peer }
    }

    /// Begins to bind `master` to `peer`. The steps, in their order: keep
    /// the peer's attributes, put the peer into raw mode, open the pipe
    /// towards the peer and the pipe towards the master, clear the append
    /// mode of the peer and of the master, start the four loops.
    pub fn new(master: Handle, peer: Handle) -> (s: ClientSetup)
        ensures
            s == Self::spec_new(master, peer),
    {
        ClientSetup::Snapshot { master, peer }
    }

    /// What the binding keeps.
    pub fn state(&self) -> (s: ClientState)
        ensures
            s == self@,
    {
        self.state
    }

    /// Whether a caller that waits for the end of the binding returns, given
    /// the cancellation flag as just read: it returns if the flag is set,
    /// and blocks on the stopped notification and asks again if it is not.
    pub fn wait(&self, cancelled: bool) -> (w: Wait)
        ensures
            w == Wait::given(cancelled),
    {
        if cancelled {
            Wait::Return
        } else {
            Wait::Block
        }
    }

    /// The operations that undo the binding, to be performed in order and
    /// each whether or not the one before it failed.
    pub fn teardown(&self) -> (plan: Vec<Request>)
        ensures
            plan@ == self@.spec_teardown(),
    {
        let mut plan: Vec<Request> = Vec::new();
        plan.push(Request::Cancel);
        plan.push(
            Request::WriteAttrs { fd: self.state.peer.fd, attrs: self.state.snapshot, flush: true },
        );
        if let Some(flags) = self.state.peer_status {
            plan.push(Request::SetFlags { fd: self.state.peer.fd, flags });
        }
        if let Some(flags) = self.state.master_status {
            plan.push(Request::SetFlags { fd: self.state.master.fd, flags });
        }
        plan
    }
}

/// Whether `reply` is of the kind that moves the step with `done` steps
/// behind it on: attributes, done, a pipe, a pipe, flags, flags, done.
pub open spec fn moves_on(done: int, reply: Reply) -> bool {
    if done == 0 {
        reply is Attrs
    } else if done == 1 || done == 6 {
        reply is Done
    } else if done == 2 || done == 3 {
        reply is Pipe
    } else if done == 4 || done == 5 {
        reply is Flags
    } else {
        false
    }
}

/// Where every step succeeds, the operations asked for are, in this order:
/// read the peer's attributes; give the peer their raw variant, flushing;
/// open a pipe; open a pipe; clear the append mode of the peer; clear that
/// of the master; start the loops. The binding then keeps the attributes
/// that were read first and the flags that the two clearings reported.
pub proof fn lemma_binding_is_built_in_order(
    master: Handle,
    peer: Handle,
    snapshot: TermAttrs,
    to_peer: Pipe,
    to_master: Pipe,
    peer_status: Option<i32>,
    master_status: Option<i32>,
)
    ensures
        ({
            let s0 = TtyClient::spec_new(master, peer);
            let s1 = s0.spec_advance(Reply::Attrs(snapshot));
            let s2 = s1.spec_advance(Reply::Done);
            let s3 = s2.spec_advance(Reply::Pipe(to_peer));
            let s4 = s3.spec_advance(Reply::Pipe(to_master));
            let s5 = s4.spec_advance(Reply::Flags(peer_status));
            let s6 = s5.spec_advance(Reply::Flags(master_status));
            let s7 = s6.spec_advance(Reply::Done);
            &&& s0.spec_request() == Some(Request::ReadAttrs { fd: peer.fd })
            &&& s1.spec_request() == Some(
                Request::WriteAttrs { fd: peer.fd, attrs: snapshot.spec_raw(), flush: true },
            )
            &&& s2.spec_request() == Some(Request::OpenPipe)
            &&& s3.spec_request() == Some(Request::OpenPipe)
            &&& s4.spec_request() == Some(Request::ClearAppend { fd: peer.fd })
            &&& s5.spec_request() == Some(Request::ClearAppend { fd: master.fd })
            &&& s6.spec_request() == Some(
                Request::Launch {
                    to_peer: Lane::spec_chain(master, to_peer, peer, false),
                    to_master: Lane::spec_chain(peer, to_master, master, true),
                },
            )
            &&& s7 == ClientSetup::Bound(
                ClientState { master, peer, master_status, peer_status, snapshot },
            )
            &&& s7.spec_request() is None
        }),
{
}

/// A step that is answered with a failure ends the construction with
/// `SetupFailure` at that step and with the system's error number; a
/// construction that has ended asks for nothing and stays as it is.
pub proof fn lemma_client_setup_fails_fast(s: ClientSetup, code: Option<i32>, reply: Reply)
    ensures
        s.spec_stage() matches Some(stage) ==> s.spec_advance(Reply::Failed(code))
            == ClientSetup::Failed(TtyError::SetupFailure { stage, code }),
        s.spec_stage() is None <==> s.spec_request() is None,
        s.spec_stage() is None ==> s.spec_advance(reply) == s,
        s.spec_stage() is None <==> (s is Bound || s is Failed),
{
}

/// After `k` answers a construction has failed, or it has as many steps
/// behind it as there were answers, seven at most, each of which was
/// answered with the kind that moves it on.
pub proof fn lemma_steps_follow_answers(master: Handle, peer: Handle, replies: Seq<Reply>, k: int)
    requires
        0 <= k <= replies.len(),
    ensures
        ({
            let s = TtyClient::spec_new(master, peer).spec_run(replies.take(k));
            s is Failed || {
                &&& s.steps_done() == (if k < 7 {
                    k
                } else {
                    7
                })
                &&& forall|j: int| 0 <= j < k && j < 7 ==> moves_on(j, #[trigger] replies[j])
            }
        }),
    decreases k,
{
    if k > 0 {
        lemma_steps_follow_answers(master, peer, replies, k - 1);
        assert(replies.take(k).drop_last() == replies.take(k - 1));
    }
}

/// The loops are asked for only once all that can fail has succeeded: a
/// construction asks to start them after exactly six answers, none of them
/// a failure. A construction that failed before has started no loop.
pub proof fn lemma_loops_start_last(master: Handle, peer: Handle, replies: Seq<Reply>, k: int)
    requires
        0 <= k <= replies.len(),
        TtyClient::spec_new(master, peer).spec_run(replies.take(k)).spec_request() matches Some(
            r,
        ) && r is Launch,
    ensures
        k == 6,
        forall|j: int| 0 <= j < 6 ==> moves_on(j, #[trigger] replies[j]),
        forall|j: int| 0 <= j < 6 ==> !(#[trigger] replies[j] is Failed),
{
    lemma_steps_follow_answers(master, peer, replies, k);
}

/// The two lanes of a binding chain through their pipes and mirror each
/// other: towards the peer the bytes go from the master into the first
/// pipe and from that pipe to the peer; towards the master they go from the
/// peer into the second pipe and from that pipe to the master. Each loop
/// reads where no other reads, the master and the peer are lent to the
/// loops, each end of a pipe is owned by the one loop that uses it, and
/// only the last loop towards the master notifies.
pub proof fn lemma_lanes_chain(master: Handle, peer: Handle, to_peer: Pipe, to_master: Pipe)
    ensures
        ({
            let down = Lane::spec_chain(master, to_peer, peer, false);
            let up = Lane::spec_chain(peer, to_master, master, true);
            &&& down.intake.source == Handle { fd: master.fd, owned: false }
            &&& down.intake.sink == Handle { fd: to_peer.writer, owned: true }
            &&& down.outlet.source == Handle { fd: to_peer.reader, owned: true }
            &&& down.outlet.sink == Handle { fd: peer.fd, owned: false }
            &&& up.intake.source == Handle { fd: peer.fd, owned: false }
            &&& up.intake.sink == Handle { fd: to_master.writer, owned: true }
            &&& up.outlet.source == Handle { fd: to_master.reader, owned: true }
            &&& up.outlet.sink == Handle { fd: master.fd, owned: false }
            &&& !down.intake.notifies && !down.outlet.notifies && !up.intake.notifies
            &&& up.outlet.notifies
            &&& !down.intake.exited && !down.outlet.exited && !up.intake.exited
            &&& !up.outlet.exited
        }),
{
}

/// A teardown sets the cancellation flag first and then only gives back: it
/// leaves the peer with the attributes that were kept before the binding
/// was made, whatever they are now, and gives the master none.
pub proof fn lemma_teardown_restores_attributes(state: ClientState)
    ensures
        state.spec_teardown()[0] == Request::Cancel,
        only_restores(state.spec_teardown()),
        attrs_given(state.spec_teardown(), state.peer.fd) == Some(state.snapshot),
        state.master.fd != state.peer.fd ==> attrs_given(state.spec_teardown(), state.master.fd)
            is None,
{
    let head = seq![
        Request::Cancel,
        Request::WriteAttrs { fd: state.peer.fd, attrs: state.snapshot, flush: true },
    ];
    let tail = restore_flags(state.peer.fd, state.peer_status) + restore_flags(
        state.master.fd,
        state.master_status,
    );
    lemma_flags_do_not_give_attributes(head, tail, state.peer.fd);
    lemma_flags_do_not_give_attributes(head, tail, state.master.fd);
    assert(state.spec_teardown() == head + tail);
    reveal_with_fuel(attrs_given, 3);
}

/// Operations that give status flags give no attributes: behind `head` they
/// leave what `head` gives.
proof fn lemma_flags_do_not_give_attributes(head: Seq<Request>, tail: Seq<Request>, fd: i32)
    requires
        forall|i: int| 0 <= i < tail.len() ==> #[trigger] tail[i] is SetFlags,
    ensures
        attrs_given(head + tail, fd) == attrs_given(head, fd),
    decreases tail.len(),
{
    if tail.len() > 0 {
        assert((head + tail).drop_last() == head + tail.drop_last());
        lemma_flags_do_not_give_attributes(head, tail.drop_last(), fd);
    }
}

/// A teardown leaves each end with the status flags that it had before its
/// append mode was cleared, and gives no flags to an end whose append mode
/// was not set. This is stated of a binding whose two ends are different
/// descriptors.
pub proof fn lemma_teardown_restores_flags(state: ClientState)
    requires
        state.master.fd != state.peer.fd,
    ensures
        flags_given(state.spec_teardown(), state.peer.fd) == state.peer_status,
        flags_given(state.spec_teardown(), state.master.fd) == state.master_status,
{
    reveal_with_fuel(flags_given, 5);
}

/// A teardown that is performed a second time leaves what the first left:
/// it gives back what was kept, not what it finds.
pub proof fn lemma_teardown_twice_is_once(state: ClientState, fd: i32)
    ensures
        attrs_given(state.spec_teardown() + state.spec_teardown(), fd) == attrs_given(
            state.spec_teardown(),
            fd,
        ),
        flags_given(state.spec_teardown() + state.spec_teardown(), fd) == flags_given(
            state.spec_teardown(),
            fd,
        ),
{
    let plan = state.spec_teardown();
    lemma_given_by_repeated_plan(plan, plan, fd);
}

/// Behind `head`, a plan that is the tail of `head` leaves what `head`
/// leaves.
proof fn lemma_given_by_repeated_plan(head: Seq<Request>, tail: Seq<Request>, fd: i32)
    ensures
        attrs_given(tail, fd) is Some ==> attrs_given(head + tail, fd) == attrs_given(tail, fd),
        attrs_given(tail, fd) is None ==> attrs_given(head + tail, fd) == attrs_given(head, fd),
        flags_given(tail, fd) is Some ==> flags_given(head + tail, fd) == flags_given(tail, fd),
        flags_given(tail, fd) is None ==> flags_given(head + tail, fd) == flags_given(head, fd),
    decreases tail.len(),
{
    if tail.len() > 0 {
        assert((head + tail).drop_last() == head + tail.drop_last());
        lemma_given_by_repeated_plan(head, tail.drop_last(), fd);
    }
}

} // verus!
