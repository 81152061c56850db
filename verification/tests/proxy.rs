use std::collections::{HashMap, VecDeque};
use tty::{
    ClientSetup, Handle, Pipe, Reply, Request, Step, TermAttrs, TransferOutcome, TtyClient, Wait,
    Worker,
};

const MASTER: i32 = 5;
const PEER: i32 = 0;
const TO_PEER: Pipe = Pipe { reader: 10, writer: 11 };
const TO_MASTER: Pipe = Pipe { reader: 12, writer: 13 };

/// Descriptors that hold bytes in memory. A terminal end has what can be
/// read from it and what was written to it; a pipe's writer feeds its reader.
struct Descriptors {
    readable: HashMap<i32, VecDeque<u8>>,
    written: HashMap<i32, Vec<u8>>,
    feeds: HashMap<i32, i32>,
    ended: HashMap<i32, bool>,
}

impl Descriptors {
    fn new() -> Descriptors {
        let mut d = Descriptors {
            readable: HashMap::new(),
            written: HashMap::new(),
            feeds: HashMap::new(),
            ended: HashMap::new(),
        };
        for fd in [MASTER, PEER, TO_PEER.reader, TO_MASTER.reader] {
            d.readable.insert(fd, VecDeque::new());
            d.ended.insert(fd, false);
        }
        for fd in [MASTER, PEER] {
            d.written.insert(fd, Vec::new());
        }
        d.feeds.insert(TO_PEER.writer, TO_PEER.reader);
        d.feeds.insert(TO_MASTER.writer, TO_MASTER.reader);
        d
    }

    fn type_in(&mut self, fd: i32, bytes: &[u8]) {
        self.readable.get_mut(&fd).unwrap().extend(bytes.iter().copied());
    }

    fn end(&mut self, fd: i32) {
        self.ended.insert(fd, true);
    }

    fn close(&mut self, handle: Handle) {
        if handle.owned {
            if let Some(reader) = self.feeds.get(&handle.fd).copied() {
                self.ended.insert(reader, true);
            }
        }
    }

    /// One transfer, or `None` where it would block.
    fn transfer(&mut self, source: i32, sink: i32, limit: usize) -> Option<TransferOutcome> {
        let ended = self.ended[&source];
        let queue = self.readable.get_mut(&source).unwrap();
        if queue.is_empty() {
            return if ended { Some(TransferOutcome::Moved(0)) } else { None };
        }
        let n = queue.len().min(limit);
        let bytes: Vec<u8> = queue.drain(..n).collect();
        match self.feeds.get(&sink).copied() {
            Some(reader) => self.readable.get_mut(&reader).unwrap().extend(bytes),
            None => self.written.get_mut(&sink).unwrap().extend(bytes),
        }
        Some(TransferOutcome::Moved(n))
    }
}

struct Proxy {
    client: TtyClient,
    workers: Vec<Worker>,
    asked: Vec<Option<Step>>,
    flag: bool,
    posted: usize,
    transfers_after_exit: usize,
}

fn bind() -> Proxy {
    let mut setup = TtyClient::new(Handle::borrowed(MASTER), Handle::owned(PEER));
    let mut workers = Vec::new();
    while let Some(request) = setup.request() {
        let reply = match request {
            Request::ReadAttrs { .. } => Reply::Attrs(TermAttrs {
                input_flags: 0x500,
                output_flags: 0x5,
                control_flags: 0xbf,
                local_flags: 0x8a3b,
                control_chars: [0u8; 32],
            }),
            Request::WriteAttrs { .. } => Reply::Done,
            Request::OpenPipe => match setup {
                ClientSetup::PipeToPeer { .. } => Reply::Pipe(TO_PEER),
                _ => Reply::Pipe(TO_MASTER),
            },
            Request::ClearAppend { .. } => Reply::Flags(None),
            Request::Launch { to_peer, to_master } => {
                workers = vec![to_peer.intake, to_peer.outlet, to_master.intake, to_master.outlet];
                Reply::Done
            }
            _ => Reply::Failed(None),
        };
        setup = setup.advance(reply);
    }
    let client = match setup.finish() {
        Some(Ok(client)) => client,
        _ => panic!("no binding"),
    };
    assert_eq!(workers.len(), 4);
    Proxy { client, workers, asked: vec![None; 4], flag: false, posted: 0, transfers_after_exit: 0 }
}

impl Proxy {
    /// Gives each loop, in the order of `order`, the chance of one turn.
    /// Returns whether any loop did anything.
    fn round(&mut self, d: &mut Descriptors, order: [usize; 4]) -> bool {
        let mut progress = false;
        for k in order {
            if self.workers[k].exited {
                continue;
            }
            let step = match self.asked[k] {
                None => self.workers[k].step(self.flag, None),
                Some(Step::Transfer { source, sink, limit }) => {
                    match d.transfer(source, sink, limit) {
                        Some(outcome) => self.workers[k].step(self.flag, Some(outcome)),
                        None if self.flag => self.workers[k].step(self.flag, None),
                        None => continue,
                    }
                }
                Some(exit) => exit,
            };
            progress = true;
            self.asked[k] = Some(step);
            if let Step::Exit { raise, notify } = step {
                assert!(self.workers[k].exited);
                if raise {
                    self.flag = true;
                }
                if notify {
                    self.posted += 1;
                }
                d.close(self.workers[k].source);
                d.close(self.workers[k].sink);
            } else if self.workers[k].exited {
                self.transfers_after_exit += 1;
            }
        }
        progress
    }

    fn settle(&mut self, d: &mut Descriptors, order: [usize; 4]) {
        let mut rounds = 0;
        while self.round(d, order) {
            rounds += 1;
            assert!(rounds < 10_000);
        }
    }

    fn stopped(&self) -> bool {
        self.workers.iter().all(|w| w.exited)
    }
}

fn pattern(len: usize, seed: u8) -> Vec<u8> {
    (0..len).map(|k| (k as u8).wrapping_mul(31).wrapping_add(seed)).collect()
}

#[test]
fn bytes_from_the_peer_reach_the_master_in_order() {
    let mut d = Descriptors::new();
    let mut proxy = bind();
    let typed = pattern(5000, 1);
    d.type_in(PEER, &typed);
    proxy.settle(&mut d, [0, 1, 2, 3]);
    assert_eq!(d.written[&MASTER], typed);
    assert!(d.written[&PEER].is_empty());
    assert!(!proxy.flag);
    assert_eq!(proxy.client.wait(proxy.flag), Wait::Block);
}

#[test]
fn bytes_from_the_master_reach_the_peer_in_order() {
    let mut d = Descriptors::new();
    let mut proxy = bind();
    let printed = pattern(3333, 2);
    d.type_in(MASTER, &printed);
    proxy.settle(&mut d, [3, 2, 1, 0]);
    assert_eq!(d.written[&PEER], printed);
    assert!(d.written[&MASTER].is_empty());
}

#[test]
fn both_directions_carry_their_own_bytes() {
    let mut d = Descriptors::new();
    let mut proxy = bind();
    let typed = pattern(2500, 3);
    let printed = pattern(4100, 4);
    let mut sent_up = 0;
    let mut sent_down = 0;
    let orders = [[0, 1, 2, 3], [3, 1, 0, 2], [2, 0, 3, 1]];
    let mut turn = 0;
    while sent_up < typed.len() || sent_down < printed.len() {
        let up = (typed.len() - sent_up).min(700);
        d.type_in(PEER, &typed[sent_up..sent_up + up]);
        sent_up += up;
        let down = (printed.len() - sent_down).min(1300);
        d.type_in(MASTER, &printed[sent_down..sent_down + down]);
        sent_down += down;
        proxy.round(&mut d, orders[turn % 3]);
        assert!(typed.starts_with(&d.written[&MASTER]));
        assert!(printed.starts_with(&d.written[&PEER]));
        turn += 1;
    }
    proxy.settle(&mut d, [0, 1, 2, 3]);
    assert_eq!(d.written[&MASTER], typed);
    assert_eq!(d.written[&PEER], printed);
}

#[test]
fn end_of_input_stops_the_binding() {
    let mut d = Descriptors::new();
    let mut proxy = bind();
    d.type_in(MASTER, &pattern(10, 5));
    proxy.settle(&mut d, [0, 1, 2, 3]);
    assert_eq!(proxy.client.wait(proxy.flag), Wait::Block);
    d.end(MASTER);
    proxy.settle(&mut d, [0, 1, 2, 3]);
    assert!(proxy.flag);
    assert!(proxy.stopped());
    assert_eq!(proxy.posted, 1);
    assert_eq!(proxy.transfers_after_exit, 0);
    assert_eq!(proxy.client.wait(proxy.flag), Wait::Return);
    assert_eq!(proxy.client.wait(proxy.flag), Wait::Return);
    d.type_in(MASTER, &pattern(10, 6));
    assert!(!proxy.round(&mut d, [0, 1, 2, 3]));
    assert_eq!(d.written[&PEER], pattern(10, 5));
}

#[test]
fn teardown_stops_the_binding() {
    let mut d = Descriptors::new();
    let mut proxy = bind();
    proxy.settle(&mut d, [0, 1, 2, 3]);
    assert!(!proxy.stopped());
    for request in proxy.client.teardown() {
        if request == Request::Cancel {
            proxy.flag = true;
        }
    }
    proxy.settle(&mut d, [2, 3, 0, 1]);
    assert!(proxy.stopped());
    assert_eq!(proxy.posted, 1);
    assert_eq!(proxy.client.wait(proxy.flag), Wait::Return);
}
