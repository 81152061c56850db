use tty::{
    ClientSetup, Handle, PtyPair, Reply, Request, ServerSetup, SpawnPlan, Stage, TermAttrs,
    TtyError, TtyServer, WinSize,
};

fn some_attrs() -> TermAttrs {
    TermAttrs {
        input_flags: 0x500,
        output_flags: 0x5,
        control_flags: 0xbf,
        local_flags: 0x8a3b,
        control_chars: [0u8; 32],
    }
}

fn pty() -> PtyPair {
    PtyPair { master: 5, slave: 6, path: String::from("/dev/pts/7") }
}

fn server() -> TtyServer {
    match TtyServer::new(None).advance(Reply::Pty(pty())).finish() {
        Some(Ok(server)) => server,
        _ => panic!("no server"),
    }
}

#[test]
fn server_without_template_asks_for_defaults() {
    let setup = TtyServer::new(None);
    assert_eq!(
        setup.request(),
        Some(Request::OpenPty { initial_attrs: None, initial_geometry: None })
    );
}

#[test]
fn server_from_template_keeps_its_geometry() {
    let geometry = WinSize { rows: 24, cols: 80, x_pixels: 640, y_pixels: 384 };
    let setup = TtyServer::new(Some(3));
    assert_eq!(setup.request(), Some(Request::ReadAttrs { fd: 3 }));
    let setup = setup.advance(Reply::Attrs(some_attrs()));
    assert_eq!(setup.request(), Some(Request::ReadGeometry { fd: 3 }));
    let setup = setup.advance(Reply::Geometry(geometry));
    assert_eq!(
        setup.request(),
        Some(Request::OpenPty {
            initial_attrs: Some(some_attrs()),
            initial_geometry: Some(geometry)
        })
    );
    let setup = setup.advance(Reply::Pty(pty()));
    assert_eq!(setup.request(), None);
    assert_eq!(setup, ServerSetup::Ready(pty()));
    assert!(matches!(setup.finish(), Some(Ok(_))));
}

#[test]
fn server_holds_what_was_allocated() {
    let mut server = server();
    assert_eq!(server.get_master(), Handle { fd: 5, owned: false });
    assert_eq!(server.path(), "/dev/pts/7");
    assert_eq!(server.take_slave(), Some(Handle { fd: 6, owned: true }));
}

#[test]
fn server_setup_is_unfinished_while_a_step_is_due() {
    assert!(TtyServer::new(Some(3)).finish().is_none());
    assert!(TtyServer::new(None).finish().is_none());
    assert!(TtyServer::new(Some(3)).advance(Reply::Attrs(some_attrs())).finish().is_none());
}

#[test]
fn server_setup_fails_when_attributes_cannot_be_read() {
    let setup = TtyServer::new(Some(3)).advance(Reply::Failed(Some(25)));
    let error = TtyError::SetupFailure { stage: Stage::QueryAttrs, code: Some(25) };
    assert_eq!(setup, ServerSetup::Failed(error));
    assert_eq!(setup.request(), None);
    assert!(matches!(setup.finish(), Some(Err(e)) if e == error));
}

#[test]
fn server_setup_fails_when_geometry_cannot_be_read() {
    let setup = TtyServer::new(Some(3))
        .advance(Reply::Attrs(some_attrs()))
        .advance(Reply::Failed(Some(25)));
    let error = TtyError::SetupFailure { stage: Stage::QueryGeometry, code: Some(25) };
    assert_eq!(setup, ServerSetup::Failed(error));
}

#[test]
fn server_setup_fails_when_allocation_fails() {
    let setup = TtyServer::new(None).advance(Reply::Failed(Some(24)));
    let error = TtyError::SetupFailure { stage: Stage::AllocatePty, code: Some(24) };
    assert_eq!(setup, ServerSetup::Failed(error));
    let setup = TtyServer::new(None).advance(Reply::Failed(None));
    let error = TtyError::SetupFailure { stage: Stage::AllocatePty, code: None };
    assert_eq!(setup, ServerSetup::Failed(error));
}

#[test]
fn server_setup_fails_on_an_answer_of_another_kind() {
    let setup = TtyServer::new(Some(3)).advance(Reply::Pty(pty()));
    let error = TtyError::SetupFailure { stage: Stage::QueryAttrs, code: None };
    assert_eq!(setup, ServerSetup::Failed(error));
    let setup = TtyServer::new(None).advance(Reply::Done);
    let error = TtyError::SetupFailure { stage: Stage::AllocatePty, code: None };
    assert_eq!(setup, ServerSetup::Failed(error));
}

#[test]
fn server_setup_stays_as_it_ended() {
    let failed = TtyServer::new(None).advance(Reply::Failed(Some(24)));
    let error = TtyError::SetupFailure { stage: Stage::AllocatePty, code: Some(24) };
    assert_eq!(failed.advance(Reply::Pty(pty())), ServerSetup::Failed(error));
    let ready = TtyServer::new(None).advance(Reply::Pty(pty()));
    assert_eq!(ready.advance(Reply::Failed(Some(1))), ServerSetup::Ready(pty()));
}

#[test]
fn take_slave_yields_once() {
    let mut server = server();
    assert_eq!(server.take_slave(), Some(Handle { fd: 6, owned: true }));
    assert_eq!(server.take_slave(), None);
    assert_eq!(server.take_slave(), None);
}

#[test]
fn take_slave_yields_nothing_after_spawn() {
    let mut server = server();
    assert!(server.spawn().is_ok());
    assert_eq!(server.take_slave(), None);
}

#[test]
fn spawn_after_take_slave_fails() {
    let mut server = server();
    assert!(server.take_slave().is_some());
    assert_eq!(server.spawn(), Err(TtyError::SlaveAlreadyConsumed));
}

#[test]
fn spawn_after_spawn_fails() {
    let mut server = server();
    assert!(server.spawn().is_ok());
    assert_eq!(server.spawn(), Err(TtyError::SlaveAlreadyConsumed));
    assert_eq!(server.take_slave(), None);
}

#[test]
fn spawn_puts_the_three_streams_on_the_slave() {
    let mut server = server();
    let plan = SpawnPlan {
        stdin: Handle { fd: 6, owned: false },
        stdout: Handle { fd: 6, owned: false },
        stderr: Handle { fd: 6, owned: true },
        new_session: true,
    };
    assert_eq!(server.spawn(), Ok(plan));
}

#[test]
fn get_master_never_gives_the_master_away() {
    let mut server = server();
    assert_eq!(server.get_master(), Handle { fd: 5, owned: false });
    assert_eq!(server.get_master(), Handle { fd: 5, owned: false });
    let _ = server.take_slave();
    let _ = server.spawn();
    assert_eq!(server.get_master(), Handle { fd: 5, owned: false });
    assert_eq!(server.path(), "/dev/pts/7");
}

#[test]
fn new_client_lends_the_master() {
    let server = server();
    let peer = Handle::owned(0);
    let setup = server.new_client(peer);
    assert_eq!(setup, ClientSetup::Snapshot { master: Handle { fd: 5, owned: false }, peer });
    assert_eq!(setup.request(), Some(Request::ReadAttrs { fd: 0 }));
}

#[test]
fn handles_say_who_closes() {
    assert_eq!(Handle::owned(4), Handle { fd: 4, owned: true });
    assert_eq!(Handle::borrowed(4), Handle { fd: 4, owned: false });
    assert_eq!(Handle::owned(4).lend(), Handle { fd: 4, owned: false });
    assert_eq!(Handle::borrowed(4).lend(), Handle { fd: 4, owned: false });
}
