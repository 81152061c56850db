use tty::{
    ClientSetup, ClientState, Handle, Lane, Pipe, Reply, Request, Stage, TermAttrs, TtyClient,
    TtyError, Wait, Worker,
};

const MASTER: Handle = Handle { fd: 5, owned: false };
const PEER: Handle = Handle { fd: 0, owned: true };
const TO_PEER: Pipe = Pipe { reader: 10, writer: 11 };
const TO_MASTER: Pipe = Pipe { reader: 12, writer: 13 };

fn cooked() -> TermAttrs {
    let mut chars = [0u8; 32];
    chars[5] = 2;
    chars[6] = 60;
    TermAttrs {
        input_flags: 0x0000_6d03,
        output_flags: 0x5,
        control_flags: 0xbf,
        local_flags: 0x0000_8a3b,
        control_chars: chars,
    }
}

fn good_replies(peer_status: Option<i32>, master_status: Option<i32>) -> Vec<Reply> {
    vec![
        Reply::Attrs(cooked()),
        Reply::Done,
        Reply::Pipe(TO_PEER),
        Reply::Pipe(TO_MASTER),
        Reply::Flags(peer_status),
        Reply::Flags(master_status),
        Reply::Done,
    ]
}

fn bound(peer_status: Option<i32>, master_status: Option<i32>) -> TtyClient {
    let mut setup = TtyClient::new(MASTER, PEER);
    for reply in good_replies(peer_status, master_status) {
        setup = setup.advance(reply);
    }
    match setup.finish() {
        Some(Ok(client)) => client,
        _ => panic!("no binding"),
    }
}

fn failure_at(step: usize, code: Option<i32>) -> ClientSetup {
    let mut setup = TtyClient::new(MASTER, PEER);
    let mut requests = Vec::new();
    for (k, reply) in good_replies(None, None).into_iter().enumerate() {
        requests.push(setup.request());
        if k == step {
            setup = setup.advance(Reply::Failed(code));
            break;
        }
        setup = setup.advance(reply);
    }
    for request in requests {
        assert!(!matches!(request, Some(Request::Launch { .. })) || step == 6);
    }
    setup
}

#[test]
fn binding_is_built_in_order() {
    let mut raw = cooked();
    raw.input_flags = 0x0000_6c02;
    raw.local_flags = 0x0000_8a30;
    raw.control_chars[5] = 0;
    raw.control_chars[6] = 1;
    let expected = vec![
        Request::ReadAttrs { fd: 0 },
        Request::WriteAttrs { fd: 0, attrs: raw, flush: true },
        Request::OpenPipe,
        Request::OpenPipe,
        Request::ClearAppend { fd: 0 },
        Request::ClearAppend { fd: 5 },
        Request::Launch {
            to_peer: Lane {
                intake: Worker {
                    source: Handle { fd: 5, owned: false },
                    sink: Handle { fd: 11, owned: true },
                    notifies: false,
                    exited: false,
                },
                outlet: Worker {
                    source: Handle { fd: 10, owned: true },
                    sink: Handle { fd: 0, owned: false },
                    notifies: false,
                    exited: false,
                },
            },
            to_master: Lane {
                intake: Worker {
                    source: Handle { fd: 0, owned: false },
                    sink: Handle { fd: 13, owned: true },
                    notifies: false,
                    exited: false,
                },
                outlet: Worker {
                    source: Handle { fd: 12, owned: true },
                    sink: Handle { fd: 5, owned: false },
                    notifies: true,
                    exited: false,
                },
            },
        },
    ];
    let mut setup = TtyClient::new(MASTER, PEER);
    let mut asked = Vec::new();
    for reply in good_replies(Some(0o2002), None) {
        assert!(setup.finish().is_none());
        asked.push(setup.request().unwrap());
        setup = setup.advance(reply);
    }
    assert_eq!(asked, expected);
    assert_eq!(setup.request(), None);
    let state = ClientState {
        master: MASTER,
        peer: PEER,
        master_status: None,
        peer_status: Some(0o2002),
        snapshot: cooked(),
    };
    assert_eq!(setup, ClientSetup::Bound(state));
    match setup.finish() {
        Some(Ok(client)) => assert_eq!(client.state(), state),
        _ => panic!("no binding"),
    }
}

#[test]
fn binding_fails_when_the_snapshot_fails() {
    let error = TtyError::SetupFailure { stage: Stage::Snapshot, code: Some(25) };
    assert_eq!(failure_at(0, Some(25)), ClientSetup::Failed(error));
}

#[test]
fn binding_fails_when_raw_mode_cannot_be_applied() {
    let error = TtyError::SetupFailure { stage: Stage::ApplyRaw, code: Some(5) };
    assert_eq!(failure_at(1, Some(5)), ClientSetup::Failed(error));
}

#[test]
fn binding_fails_when_a_pipe_cannot_be_opened() {
    let error = TtyError::SetupFailure { stage: Stage::PipeToPeer, code: Some(24) };
    assert_eq!(failure_at(2, Some(24)), ClientSetup::Failed(error));
    let error = TtyError::SetupFailure { stage: Stage::PipeToMaster, code: Some(23) };
    assert_eq!(failure_at(3, Some(23)), ClientSetup::Failed(error));
}

#[test]
fn binding_fails_when_append_mode_cannot_be_cleared() {
    let error = TtyError::SetupFailure { stage: Stage::ClearPeerAppend, code: Some(9) };
    assert_eq!(failure_at(4, Some(9)), ClientSetup::Failed(error));
    let error = TtyError::SetupFailure { stage: Stage::ClearMasterAppend, code: None };
    assert_eq!(failure_at(5, None), ClientSetup::Failed(error));
}

#[test]
fn binding_fails_when_the_loops_cannot_be_started() {
    let error = TtyError::SetupFailure { stage: Stage::Launch, code: Some(11) };
    assert_eq!(failure_at(6, Some(11)), ClientSetup::Failed(error));
}

#[test]
fn failed_binding_asks_for_nothing_more() {
    for step in 0..7 {
        let failed = failure_at(step, Some(1));
        assert_eq!(failed.request(), None);
        assert!(matches!(failed.finish(), Some(Err(TtyError::SetupFailure { .. }))));
        assert_eq!(failed.advance(Reply::Done), failed);
    }
}

#[test]
fn binding_fails_on_an_answer_of_another_kind() {
    let setup = TtyClient::new(MASTER, PEER).advance(Reply::Done);
    let error = TtyError::SetupFailure { stage: Stage::Snapshot, code: None };
    assert_eq!(setup, ClientSetup::Failed(error));
    let setup = TtyClient::new(MASTER, PEER)
        .advance(Reply::Attrs(cooked()))
        .advance(Reply::Attrs(cooked()));
    let error = TtyError::SetupFailure { stage: Stage::ApplyRaw, code: None };
    assert_eq!(setup, ClientSetup::Failed(error));
}

#[test]
fn teardown_restores_the_snapshot() {
    let plan = bound(None, None).teardown();
    assert_eq!(
        plan,
        vec![Request::Cancel, Request::WriteAttrs { fd: 0, attrs: cooked(), flush: true }]
    );
}

#[test]
fn teardown_restores_cleared_append_flags() {
    let plan = bound(Some(0o2002), Some(0o102002)).teardown();
    assert_eq!(
        plan,
        vec![
            Request::Cancel,
            Request::WriteAttrs { fd: 0, attrs: cooked(), flush: true },
            Request::SetFlags { fd: 0, flags: 0o2002 },
            Request::SetFlags { fd: 5, flags: 0o102002 },
        ]
    );
}

#[test]
fn teardown_leaves_untouched_flags_alone() {
    let plan = bound(Some(0o2002), None).teardown();
    assert_eq!(
        plan,
        vec![
            Request::Cancel,
            Request::WriteAttrs { fd: 0, attrs: cooked(), flush: true },
            Request::SetFlags { fd: 0, flags: 0o2002 },
        ]
    );
    let plan = bound(None, Some(0o2001)).teardown();
    assert_eq!(
        plan,
        vec![
            Request::Cancel,
            Request::WriteAttrs { fd: 0, attrs: cooked(), flush: true },
            Request::SetFlags { fd: 5, flags: 0o2001 },
        ]
    );
}

#[test]
fn teardown_is_the_same_each_time() {
    let client = bound(Some(0o2002), None);
    assert_eq!(client.teardown(), client.teardown());
}

#[test]
fn wait_returns_once_the_flag_is_set() {
    let client = bound(None, None);
    assert_eq!(client.wait(false), Wait::Block);
    assert_eq!(client.wait(true), Wait::Return);
    assert_eq!(client.wait(true), Wait::Return);
}
