//! Pseudo-terminal sessions: the rules by which a PTY is handed to a child
//! process and bound to a peer terminal, stated and proved.
//!
//! The library touches no descriptor. A server and a binding are built step
//! by step: each step names the one operation that it needs of the system,
//! and takes the answer. The transfer loops of a binding are told, turn by
//! turn, whether to move more bytes or to leave.

pub mod binding;
pub mod client;
pub mod error;
pub mod handle;
pub mod protocol;
pub mod server;
pub mod termattrs;
pub mod worker;

pub use client::{ClientSetup, ClientState, TtyClient, Wait};
pub use error::{Stage, TtyError};
pub use handle::{Handle, Pipe, PtyPair};
pub use protocol::{Reply, Request};
pub use server::{ServerSetup, SpawnPlan, TtyServer};
pub use termattrs::{TermAttrs, WinSize};
pub use worker::{Lane, Step, TransferOutcome, Worker, CHUNK};
