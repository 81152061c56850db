//! The pseudo-terminal server: the master end, the slave end until it is
//! handed out, and the slave's device path.

use vstd::prelude::*;
use crate::client::{ClientSetup, TtyClient};
use crate::error::{Stage, TtyError};
use crate::handle::{Handle, PtyPair};
use crate::protocol::{Reply, Request};
use crate::termattrs::{TermAttrs, WinSize};

verus! {

/// What a server holds.
pub struct ServerView {
    /// The master end.
    pub master: i32,
    /// The slave end, until it is handed out.
    pub slave: Option<i32>,
    /// The device path of the slave end.
    pub path: Seq<char>,
}

/// How a child process is attached to the slave end.
#[derive(Clone, Copy, Debug, PartialEq, Eq)]
pub struct SpawnPlan {
    /// The child's standard input.
    pub stdin: Handle,
    /// The child's standard output.
    pub stdout: Handle,
    /// The child's standard error. It is bound last and owns the slave end:
    /// once the child is started the parent holds the slave no longer, and
    /// the master sees the end of input when the child and its descendants
    /// are gone.
    pub stderr: Handle,
    /// The child starts a session of its own, with the slave as its
    /// controlling terminal.
    pub new_session: bool,
}

impl SpawnPlan {
    /// The plan that attaches a child to `slave`.
    pub open spec fn attach(slave: i32) -> SpawnPlan {
        SpawnPlan {
            stdin: Handle { fd: slave, owned: false },
            stdout: Handle { fd: slave, owned: false },
            stderr: Handle { fd: slave, owned: true },
            new_session: true,
        }
    }
}

/// An operation that asks the server for its slave end.
pub enum Consumer {
    /// Taking the slave end to pass it on by hand.
    TakeSlave,
    /// Attaching a child process to the slave end.
    Spawn,
}

impl ServerView {
    /// The server after its slave end was asked for, by either operation.
    pub open spec fn consumed(self) -> ServerView {
        ServerView { master: self.master, slave: None, path: self.path }
    }

    /// What `take_slave` returns.
    pub open spec fn taken(self) -> Option<Handle> {
        match self.slave {
            Some(fd) => Some(Handle { fd, owned: true }),
            None => None,
        }
    }

    /// What `spawn` returns.
    pub open spec fn spawned(self) -> Result<SpawnPlan, TtyError> {
        match self.slave {
            Some(fd) => Ok(SpawnPlan::attach(fd)),
            None => Err(TtyError::SlaveAlreadyConsumed),
        }
    }

    /// Whether `op` gets the slave end from this server.
    pub open spec fn gives(self, op: Consumer) -> bool {
        match op {
            Consumer::TakeSlave => self.taken() is Some,
            Consumer::Spawn => self.spawned() is Ok,
        }
    }

    /// The server after a run of operations that ask for the slave end.
    pub open spec fn after(self, ops: Seq<Consumer>) -> ServerView
        decreases ops.len(),
    {
        if ops.len() == 0 {
            self
        } else {
            self.after(ops.drop_last()).consumed()
        }
    }
}

/// A pseudo-terminal server.
pub struct TtyServer {
    master: i32,
    slave: Option<i32>,
    path: String,
}

impl View for TtyServer {
    type V = ServerView;

    closed spec fn view(&self) -> ServerView {
        ServerView { master: self.master, slave: self.slave, path: self.path@ }
    }
}

/// The construction of a server, step by step.
#[derive(Debug, PartialEq, Eq)]
pub enum ServerSetup {
    /// The attributes of the template are to be read.
    QueryAttrs { template: i32 },
    /// The geometry of the template is to be read.
    QueryGeometry { template: i32, attrs: TermAttrs },
    /// The pseudo-terminal is to be allocated.
    Allocate { initial_attrs: Option<TermAttrs>, initial_geometry: Option<WinSize> },
    /// The pseudo-terminal is there.
    Ready(PtyPair),
    /// A step failed.
    Failed(TtyError),
}

impl ServerSetup {
    /// The step that the construction is at, while it is under way.
    pub open spec fn spec_stage(self) -> Option<Stage> {
        match self {
            ServerSetup::QueryAttrs { .. } => Some(Stage::QueryAttrs),
            ServerSetup::QueryGeometry { .. } => Some(Stage::QueryGeometry),
            ServerSetup::Allocate { .. } => Some(Stage::AllocatePty),
            ServerSetup::Ready(_) => None,
            ServerSetup::Failed(_) => None,
        }
    }

    /// The operation that the construction needs next.
    pub open spec fn spec_request(self) -> Option<Request> {
        match self {
            ServerSetup::QueryAttrs { template } => Some(Request::ReadAttrs { fd: template }),
            ServerSetup::QueryGeometry { template, .. } => Some(
                Request::ReadGeometry { fd: template },
            ),
            ServerSetup::Allocate { initial_attrs, initial_geometry } => Some(
                Request::OpenPty { initial_attrs, initial_geometry },
            ),
            ServerSetup::Ready(_) => None,
            ServerSetup::Failed(_) => None,
        }
    }

    /// The construction after the answer to its request.
    pub open spec fn spec_advance(self, reply: Reply) -> ServerSetup {
        match self {
            ServerSetup::QueryAttrs { template } => match reply {
                Reply::Attrs(attrs) => ServerSetup::QueryGeometry { template, attrs },
                _ => ServerSetup::Failed(reply.spec_failure(Stage::QueryAttrs)),
            },
            ServerSetup::QueryGeometry { template, attrs } => match reply {
                Reply::Geometry(geometry) => ServerSetup::Allocate {
                    initial_attrs: Some(attrs),
                    initial_geometry: Some(geometry),
                },
                _ => ServerSetup::Failed(reply.spec_failure(Stage::QueryGeometry)),
            },
            ServerSetup::Allocate { .. } => match reply {
                Reply::Pty(pty) => ServerSetup::Ready(pty),
                _ => ServerSetup::Failed(reply.spec_failure(Stage::AllocatePty)),
            },
            ServerSetup::Ready(_) => self,
            ServerSetup::Failed(_) => self,
        }
    }

    /// The operation to perform now, or `None` when the construction has
    /// come to its end.
    pub fn request(&self) -> (r: Option<Request>)
        ensures
            r == self.spec_request(),
    {
        match self {
            ServerSetup::QueryAttrs { template } => Some(Request::ReadAttrs { fd: *template }),
            ServerSetup::QueryGeometry { template, .. } => Some(
                Request::ReadGeometry { fd: *template },
            ),
            ServerSetup::Allocate { initial_attrs, initial_geometry } => Some(
                Request::OpenPty {
                    initial_attrs: *initial_attrs,
                    initial_geometry: *initial_geometry,
                },
            ),
            ServerSetup::Ready(_) => None,
            ServerSetup::Failed(_) => None,
        }
    }

    /// Takes the answer to the request and moves to the next step.
    ///
    /// The answer of the kind that the request names moves the construction
    /// on. Any other answer, a failure or one of another kind, ends it with
    /// `SetupFailure` at the step at hand. A construction that has come to
    /// its end stays as it is.
    pub fn advance(self, reply: Reply) -> (next: ServerSetup)
        ensures
            next == self.spec_advance(reply),
    {
        match self {
            ServerSetup::QueryAttrs { template } => match reply {
                Reply::Attrs(attrs) => ServerSetup::QueryGeometry { template, attrs },
                other => ServerSetup::Failed(other.failure(Stage::QueryAttrs)),
            },
            ServerSetup::QueryGeometry { template, attrs } => match reply {
                Reply::Geometry(geometry) => ServerSetup::Allocate {
                    initial_attrs: Some(attrs),
                    initial_geometry: Some(geometry),
                },
                other => ServerSetup::Failed(other.failure(Stage::QueryGeometry)),
            },
            ServerSetup::Allocate { .. } => match reply {
                Reply::Pty(pty) => ServerSetup::Ready(pty),
                other => ServerSetup::Failed(other.failure(Stage::AllocatePty)),
            },
            ServerSetup::Ready(pty) => ServerSetup::Ready(pty),
            ServerSetup::Failed(e) => ServerSetup::Failed(e),
        }
    }

    /// Ends the construction: the server, the error, or `None` while a step
    /// is still to be done.
    pub fn finish(self) -> (r: Option<Result<TtyServer, TtyError>>)
        ensures
            match self {
                ServerSetup::Ready(pty) => r matches Some(Ok(server)) && server@ == (ServerView {
                    master: pty.master,
                    slave: Some(pty.slave),
                    path: pty.path@,
                }),
                ServerSetup::Failed(e) => r == Some(Err::<TtyServer, TtyError>(e)),
                _ => r is None,
            },
    {
        match self {
            ServerSetup::Ready(pty) => Some(
                Ok(TtyServer { master: pty.master, slave: Some(pty.slave), path: pty.path }),
            ),
            ServerSetup::Failed(e) => Some(Err(e)),
            _ => None,
        }
    }
}

impl TtyServer {
    /// The construction of a server, before its first step.
    pub open spec fn spec_new(template: Option<i32>) -> ServerSetup {
        match template {
            Some(fd) => ServerSetup::QueryAttrs { template: fd },
            None => ServerSetup::Allocate { initial_attrs: None, initial_geometry: None },
        }
    }

    /// Begins the construction of a server. With a template, its attributes
    /// and then its geometry are read and the pseudo-terminal is allocated
    /// with both; without one it is allocated with the system's defaults.
    pub fn new(template: Option<i32>) -> (s: ServerSetup)
        ensures
            s == Self::spec_new(template),
    {
        match template {
            Some(fd) => ServerSetup::QueryAttrs { template: fd },
            None => ServerSetup::Allocate { initial_attrs: None, initial_geometry: None },
        }
    }

    /// The master end, lent: the handle never closes it, however often it is
    /// asked for.
    pub fn get_master(&self) -> (h: Handle)
        ensures
            h == (Handle { fd: self@.master, owned: false }),
    {
        Handle { fd: self.master, owned: false }
    }

    /// Begins to bind the master end to `peer`. The binding gets the master
    /// lent, so that it stays open for as long as the server is there.
    pub fn new_client(&self, peer: Handle) -> (s: ClientSetup)
        ensures
            s == TtyClient::spec_new(Handle { fd: self@.master, owned: false }, peer),
    {
        TtyClient::new(Handle { fd: self.master, owned: false }, peer)
    }

    /// Hands out the slave end, with its ownership, if the server still
    /// holds it. Afterwards the server holds none.
    pub fn take_slave(&mut self) -> (r: Option<Handle>)
        ensures
            r == old(self)@.taken(),
            final(self)@ == old(self)@.consumed(),
    {
        match self.slave.take() {
            Some(fd) => Some(Handle { fd, owned: true }),
            None => None,
        }
    }

    /// Hands out the slave end to a child process: all three standard
    /// streams on the slave, in a session of its own. Fails with
    /// `SlaveAlreadyConsumed` if the server holds the slave no longer.
    /// Afterwards the server holds none.
    pub fn spawn(&mut self) -> (r: Result<SpawnPlan, TtyError>)
        ensures
            r == old(self)@.spawned(),
            final(self)@ == old(self)@.consumed(),
    {
        match self.slave.take() {
            Some(fd) => Ok(
                SpawnPlan {
                    stdin: Handle { fd, owned: false },
                    stdout: Handle { fd, owned: false },
                    stderr: Handle { fd, owned: true },
                    new_session: true,
                },
            ),
            None => Err(TtyError::SlaveAlreadyConsumed),
        }
    }

    /// The device path of the slave end.
    pub fn path(&self) -> (p: &str)
        ensures
            p@ == self@.path,
    {
        self.path.as_str()
    }
}

/// The slave end goes to whichever operation asks for it first, and to no
/// other: after any run of `take_slave` and `spawn`, in any order, the server
/// holds the slave only if the run is empty, what the first of them got is
/// what the server held, `take_slave` then returns nothing, and `spawn`
/// fails with `SlaveAlreadyConsumed`.
pub proof fn lemma_slave_goes_to_the_first_consumer(server: ServerView, ops: Seq<Consumer>)
    ensures
        server.after(ops).master == server.master,
        server.after(ops).path == server.path,
        server.after(ops).slave == (if ops.len() == 0 {
            server.slave
        } else {
            None
        }),
        ops.len() > 0 ==> server.after(ops).taken() is None,
        ops.len() > 0 ==> server.after(ops).spawned() == Err::<SpawnPlan, TtyError>(
            TtyError::SlaveAlreadyConsumed,
        ),
    decreases ops.len(),
{
    if ops.len() > 0 {
        lemma_slave_goes_to_the_first_consumer(server, ops.drop_last());
    }
}

/// In a run of `take_slave` and `spawn`, in any order, the operation at the
/// head gets the slave end if the server holds it, and no later one does.
pub proof fn lemma_only_the_first_consumer_gets_the_slave(
    server: ServerView,
    ops: Seq<Consumer>,
    i: int,
)
    requires
        0 <= i < ops.len(),
    ensures
        server.after(ops.take(i)).gives(ops[i]) <==> (i == 0 && server.slave is Some),
{
    lemma_slave_goes_to_the_first_consumer(server, ops.take(i));
}

/// An operation gets the slave end exactly when the server holds it:
/// `take_slave` returns it, owned, and `spawn` returns the plan that puts
/// the child's three standard streams on it, in a session of its own, the
/// last of them owning it.
pub proof fn lemma_consumer_gets_what_is_held(server: ServerView)
    ensures
        server.taken() is Some <==> server.slave is Some,
        server.spawned() is Ok <==> server.slave is Some,
        server.slave matches Some(fd) ==> {
            &&& server.taken() == Some(Handle { fd, owned: true })
            &&& server.spawned() matches Ok(plan)
            &&& plan.stdin.fd == fd && plan.stdout.fd == fd && plan.stderr.fd == fd
            &&& !plan.stdin.owned && !plan.stdout.owned && plan.stderr.owned
            &&& plan.new_session
        },
{
}

/// With a template, the pseudo-terminal is asked for with the attributes and
/// the window geometry that were read from the template, after these two
/// were asked for in this order; and the server is made of what the
/// allocation gave.
pub proof fn lemma_template_is_carried_over(
    template: i32,
    attrs: TermAttrs,
    geometry: WinSize,
    pty: PtyPair,
)
    ensures
        ({
            let s0 = TtyServer::spec_new(Some(template));
            let s1 = s0.spec_advance(Reply::Attrs(attrs));
            let s2 = s1.spec_advance(Reply::Geometry(geometry));
            let s3 = s2.spec_advance(Reply::Pty(pty));
            &&& s0.spec_request() == Some(Request::ReadAttrs { fd: template })
            &&& s1.spec_request() == Some(Request::ReadGeometry { fd: template })
            &&& s2.spec_request() == Some(
                Request::OpenPty {
                    initial_attrs: Some(attrs),
                    initial_geometry: Some(geometry),
                },
            )
            &&& s3 == ServerSetup::Ready(pty)
        }),
{
}

/// Without a template, the pseudo-terminal is asked for at once, with the
/// system's defaults.
pub proof fn lemma_no_template_means_defaults(pty: PtyPair)
    ensures
        TtyServer::spec_new(None).spec_request() == Some(
            Request::OpenPty { initial_attrs: None, initial_geometry: None },
        ),
        TtyServer::spec_new(None).spec_advance(Reply::Pty(pty)) == ServerSetup::Ready(pty),
{
}

/// A step that is answered with a failure ends the construction with
/// `SetupFailure` at that step and with the system's error number; a
/// construction that has ended asks for nothing and stays as it is.
pub proof fn lemma_server_setup_fails_fast(s: ServerSetup, code: Option<i32>, reply: Reply)
    ensures
        s.spec_stage() matches Some(stage) ==> s.spec_advance(Reply::Failed(code))
            == ServerSetup::Failed(TtyError::SetupFailure { stage, code }),
        s.spec_stage() is None <==> s.spec_request() is None,
        s.spec_stage() is None ==> s.spec_advance(reply) == s,
        s.spec_stage() is None <==> (s is Ready || s is Failed),
{
}

} // verus!
