//! An encrypted, replay-protected UDP bridge between two legacy remote-shell
//! daemons: an authenticated datagram codec, an initiator session and a
//! responder session, each a state machine that decides and does no I/O.
//! A thin executable around this library owns the sockets and subprocesses
//! and performs the actions the sessions return.
pub mod addr;
pub mod bootstrap;
pub mod client;
pub mod message;
pub mod protocol;
pub mod replay;
pub mod server;
pub mod wire;
