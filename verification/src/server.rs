//! The responder's session: it answers pings, bootstraps the local subsystem
//! on request — idempotently for a repeated session id — tracks the most
//! recent client address, and relays opaque traffic between the public socket
//! and the subsystem.
//!
//! As on the initiator side, the session decides and does no I/O: the
//! surrounding loop hands it datagrams and the outcomes of the subprocess and
//! socket work it asked for, and performs the returned actions.
use vstd::prelude::*;

use crate::addr::PeerAddr;
use crate::bootstrap::{parse_connect_output, parse_connect_spec};
use crate::message::{copy_range, Message, MessageV};
use crate::protocol::{
    cache_after_spec, decrypt, decrypt_result_spec, encrypt, envelope_message, CryptoError,
};
use crate::replay::{nonce_set_contents, NonceSet};

verus! {

/// A running subsystem as the responder tracks it: its session key and the
/// session id it was bootstrapped for.
pub ghost struct SubsystemV {
    pub key: Seq<char>,
    pub sessid: u64,
}

/// The mathematical state of a responder session.
#[verifier::ext_equal]
pub ghost struct ServerV {
    pub key: Seq<u8>,
    pub cache: Set<Seq<u8>>,
    pub sub: Option<SubsystemV>,
    pub client: Option<PeerAddr>,
}

struct Subsystem {
    key: String,
    sessid: u64,
}

/// The responder session state.
pub struct Server {
    key: Vec<u8>,
    cache: NonceSet,
    sub: Option<Subsystem>,
    client: Option<PeerAddr>,
}

impl View for Server {
    type V = ServerV;

    closed spec fn view(&self) -> ServerV {
        ServerV {
            key: self.key@,
            cache: nonce_set_contents(self.cache),
            sub: match self.sub {
                Some(ref s) => Some(SubsystemV { key: s.key@, sessid: s.sessid }),
                None => None,
            },
            client: self.client,
        }
    }
}

/// What the session asks the surrounding loop to do.
pub enum ServerAction {
    /// Nothing; keep waiting.
    Ignore,
    /// Send this encrypted envelope to that address over the public socket.
    Reply { data: Vec<u8>, to: PeerAddr },
    /// Send these bytes to the subsystem over its connected relay socket.
    ForwardToSubsystem { data: Vec<u8> },
    /// Send these bytes to that client address over the public socket.
    ForwardToClient { data: Vec<u8>, to: PeerAddr },
    /// Launch the legacy server for this session id, capture its output, and
    /// report back with `on_bootstrap_result`.
    Bootstrap { sessid: u64 },
    /// Bind and connect a local relay socket to this port on the loopback
    /// address, then report back with `on_connect_result`.
    ConnectSubsystem { port: u16, key: String },
}

/// How the subprocess launch the loop was asked for went.
pub enum BootstrapOutcome {
    /// The subprocess ran; its exit status and captured standard output.
    Spawned { exit_ok: bool, output: Vec<u8> },
    /// The subprocess could not be started at all.
    SpawnFailed,
}

/// Why a bootstrap attempt produced a failure reply.
#[derive(Debug, Clone, Copy, PartialEq, Eq, Structural)]
pub enum SubsystemError {
    /// The legacy server could not be spawned.
    SpawnFailed,
    /// The legacy server exited unsuccessfully.
    NonZeroExit,
    /// Its output held no usable announcement line.
    MalformedOutput,
}

/// The diagnostic text carried by the failure reply for each bootstrap error.
pub open spec fn subsystem_error_text(e: SubsystemError) -> Seq<char> {
    match e {
        SubsystemError::SpawnFailed => "could not spawn mosh-server"@,
        SubsystemError::NonZeroExit => "unsuccessful exit status from mosh-server"@,
        SubsystemError::MalformedOutput => "no usable MOSH CONNECT line in mosh-server output"@,
    }
}

impl SubsystemError {
    /// The diagnostic text of this error.
    pub fn message(&self) -> (r: String)
        ensures
            r@ == subsystem_error_text(*self),
    {
        match self {
            SubsystemError::SpawnFailed => "could not spawn mosh-server".to_owned(),
            SubsystemError::NonZeroExit => "unsuccessful exit status from mosh-server".to_owned(),
            SubsystemError::MalformedOutput => {
                "no usable MOSH CONNECT line in mosh-server output".to_owned()
            },
        }
    }
}

/// The diagnostic text of the failure reply when the relay socket for a
/// freshly bootstrapped subsystem could not be set up.
pub open spec fn connect_error_text() -> Seq<char> {
    "could not connect a local relay socket to mosh-server"@
}

/// What one authenticated message does to the responder: the state
/// afterwards, the reply owed, and the session id to bootstrap for, if any.
#[verifier::ext_equal]
pub ghost struct ServerStepV {
    pub state: ServerV,
    pub reply: Option<MessageV>,
    pub bootstrap: Option<u64>,
}

/// The responder's reaction to one authenticated message from `from`: a ping
/// is answered with a pong; a bootstrap request records the sender as the
/// current client and is answered from the active subsystem when the session
/// id matches, else a fresh bootstrap is started; everything else is dropped.
pub open spec fn server_msg_step(s: ServerV, m: MessageV, from: PeerAddr) -> ServerStepV {
    match m {
        MessageV::Ping => ServerStepV {
            state: s,
            reply: Some(MessageV::Pong),
            bootstrap: Option::<u64>::None,
        },
        MessageV::StartServer { sessid } => {
            let s1 = ServerV { client: Some(from), ..s };
            match s.sub {
                Some(sub) => if sub.sessid == sessid {
                    ServerStepV {
                        state: s1,
                        reply: Some(MessageV::ServerStarted { key: sub.key }),
                        bootstrap: Option::<u64>::None,
                    }
                } else {
                    ServerStepV {
                        state: s1,
                        reply: Option::<MessageV>::None,
                        bootstrap: Some(sessid),
                    }
                },
                None => ServerStepV {
                    state: s1,
                    reply: Option::<MessageV>::None,
                    bootstrap: Some(sessid),
                },
            }
        },
        _ => ServerStepV {
            state: s,
            reply: Option::<MessageV>::None,
            bootstrap: Option::<u64>::None,
        },
    }
}

/// Idempotent bootstrap: while a subsystem for session id `sid` is active,
/// two bootstrap requests for `sid` in a row are each answered with that
/// subsystem's existing key, neither starts a new bootstrap, and the
/// subsystem state is untouched both times.
pub proof fn lemma_idempotent_bootstrap(
    s: ServerV,
    sub: SubsystemV,
    sid: u64,
    from1: PeerAddr,
    from2: PeerAddr,
)
    requires
        s.sub == Some(sub),
        sub.sessid == sid,
    ensures
        ({
            let st1 = server_msg_step(s, MessageV::StartServer { sessid: sid }, from1);
            let st2 = server_msg_step(st1.state, MessageV::StartServer { sessid: sid }, from2);
            &&& st1.reply == Some(MessageV::ServerStarted { key: sub.key })
            &&& st2.reply == Some(MessageV::ServerStarted { key: sub.key })
            &&& st1.bootstrap is None
            &&& st2.bootstrap is None
            &&& st1.state.sub == s.sub
            &&& st2.state.sub == s.sub
        }),
{
}

/// Whether `r` is the reply `m` owed to the current client, sealed under the
/// session's key — or nothing, which the loop treats as a skipped reply; a
/// reply is only skipped when sealing itself failed, and is never owed when
/// no client address is known.
pub open spec fn replies_to_client(r: ServerAction, s: ServerV, m: MessageV) -> bool {
    match s.client {
        Some(c) => (r matches ServerAction::Reply { data, to } && to == c && envelope_message(
            data@,
            s.key,
        ) == Some(m)) || (r is Ignore),
        None => r is Ignore,
    }
}

impl Server {
    /// The session is usable while it holds a full-size key.
    pub open spec fn wf(&self) -> bool {
        self@.key.len() == 32
    }

    /// A fresh responder session: empty replay cache, no subsystem, no client
    /// address known yet.
    pub fn new(key: Vec<u8>) -> (r: Server)
        requires
            key@.len() == 32,
        ensures
            r.wf(),
            r@.key == key@,
            r@.cache == Set::<Seq<u8>>::empty(),
            r@.sub is None,
            r@.client is None,
    {
        Server { key, cache: NonceSet::new(), sub: None, client: None }
    }

    /// Seals `msg` and shapes it into a reply to `to`; nothing when sealing
    /// fails, which the loop treats as a skipped reply.
    fn seal_reply(&self, msg: Message, to: PeerAddr) -> (r: ServerAction)
        requires
            self.wf(),
        ensures
            (r matches ServerAction::Reply { data, to: t } && t == to && envelope_message(
                data@,
                self@.key,
            ) == Some(msg@)) || (r is Ignore),
    {
        match encrypt(&msg, &self.key) {
            Ok(data) => ServerAction::Reply { data, to },
            Err(_) => ServerAction::Ignore,
        }
    }

    /// One datagram from the public socket. A datagram that authenticates as
    /// a protocol message drives the step function above; the reply it owes
    /// is sealed and addressed to the sender. A datagram that does not
    /// authenticate is opaque traffic for the subsystem, forwarded there
    /// while one is active and dropped otherwise.
    pub fn on_public_datagram(&mut self, pkt: &Vec<u8>, from: PeerAddr) -> (r: ServerAction)
        requires
            old(self).wf(),
        ensures
            final(self).wf(),
            final(self)@.key == old(self)@.key,
            final(self)@.cache == cache_after_spec(pkt@, old(self)@.key, old(self)@.cache),
            match decrypt_result_spec(pkt@, old(self)@.key, old(self)@.cache) {
                Ok(m) => ({
                    let st = server_msg_step(
                        (ServerV { cache: final(self)@.cache, ..old(self)@ }),
                        m,
                        from,
                    );
                    &&& final(self)@ == st.state
                    &&& match st.bootstrap {
                        Some(sid) => r matches ServerAction::Bootstrap { sessid } && sessid == sid,
                        None => match st.reply {
                            Some(rm) => (r matches ServerAction::Reply { data, to } && to == from
                                && envelope_message(data@, old(self)@.key) == Some(rm)) || (
                            r is Ignore),
                            None => r is Ignore,
                        },
                    }
                }),
                Err(_) => final(self)@ == (ServerV {
                    cache: final(self)@.cache,
                    ..old(self)@
                }) && match old(self)@.sub {
                    Some(_) => r matches ServerAction::ForwardToSubsystem { data } && data@ == pkt@,
                    None => r is Ignore,
                },
            },
    {
        let m = match decrypt(pkt, &self.key, &mut self.cache) {
            Ok(m) => m,
            Err(_) => {
                return match &self.sub {
                    Some(_) => ServerAction::ForwardToSubsystem {
                        data: copy_range(pkt, 0, pkt.len()),
                    },
                    None => ServerAction::Ignore,
                };
            },
        };
        match m {
            Message::Ping => self.seal_reply(Message::Pong, from),
            Message::StartServer { sessid } => {
                self.client = Some(from);
                let existing: Option<String> = match &self.sub {
                    Some(sub) => {
                        if sub.sessid == sessid {
                            Some(sub.key.clone())
                        } else {
                            None
                        }
                    },
                    None => None,
                };
                match existing {
                    Some(k) => self.seal_reply(Message::ServerStarted { key: k }, from),
                    None => ServerAction::Bootstrap { sessid },
                }
            },
            _ => ServerAction::Ignore,
        }
    }

    /// The loop reports how the bootstrap subprocess went. A failed spawn or
    /// a failed exit clears the subsystem and owes the client a failure
    /// reply; otherwise the captured output is parsed, and either the loop is
    /// asked to connect a relay socket to the announced port, or — when no
    /// usable announcement is found — the subsystem is cleared and a failure
    /// reply is owed.
    pub fn on_bootstrap_result(&mut self, outcome: BootstrapOutcome) -> (r: ServerAction)
        requires
            old(self).wf(),
        ensures
            final(self).wf(),
            final(self)@.key == old(self)@.key,
            final(self)@.cache == old(self)@.cache,
            final(self)@.client == old(self)@.client,
            match outcome {
                BootstrapOutcome::SpawnFailed => final(self)@.sub is None && replies_to_client(
                    r,
                    old(self)@,
                    MessageV::Failed { msg: subsystem_error_text(SubsystemError::SpawnFailed) },
                ),
                BootstrapOutcome::Spawned { exit_ok, output } => if !exit_ok {
                    final(self)@.sub is None && replies_to_client(
                        r,
                        old(self)@,
                        MessageV::Failed { msg: subsystem_error_text(SubsystemError::NonZeroExit) },
                    )
                } else {
                    match parse_connect_spec(output@) {
                        Some(pk) => final(self)@.sub == old(self)@.sub && (
                        r matches ServerAction::ConnectSubsystem { port, key } && port == pk.0
                            && key@ == pk.1),
                        None => final(self)@.sub is None && replies_to_client(
                            r,
                            old(self)@,
                            MessageV::Failed {
                                msg: subsystem_error_text(SubsystemError::MalformedOutput),
                            },
                        ),
                    }
                },
            },
    {
        match outcome {
            BootstrapOutcome::SpawnFailed => {
                self.sub = None;
                self.reply_failure(SubsystemError::SpawnFailed)
            },
            BootstrapOutcome::Spawned { exit_ok, output } => {
                if !exit_ok {
                    self.sub = None;
                    self.reply_failure(SubsystemError::NonZeroExit)
                } else {
                    match parse_connect_output(&output) {
                        Some(ci) => ServerAction::ConnectSubsystem { port: ci.port, key: ci.key },
                        None => {
                            self.sub = None;
                            self.reply_failure(SubsystemError::MalformedOutput)
                        },
                    }
                }
            },
        }
    }

    /// The failure reply owed for a bootstrap error, sealed for the current
    /// client.
    fn reply_failure(&self, e: SubsystemError) -> (r: ServerAction)
        requires
            self.wf(),
        ensures
            replies_to_client(
                r,
                self@,
                MessageV::Failed { msg: subsystem_error_text(e) },
            ),
    {
        match self.client {
            Some(c) => self.seal_reply(Message::Failed { msg: e.message() }, c),
            None => ServerAction::Ignore,
        }
    }

    /// The loop reports how connecting the relay socket went: on success the
    /// subsystem is recorded under `sessid` with its key and the client is
    /// owed the bootstrap reply carrying that key; on failure the subsystem
    /// is cleared and the client is owed a failure reply.
    pub fn on_connect_result(&mut self, sessid: u64, key: String, ok: bool) -> (r: ServerAction)
        requires
            old(self).wf(),
        ensures
            final(self).wf(),
            final(self)@.key == old(self)@.key,
            final(self)@.cache == old(self)@.cache,
            final(self)@.client == old(self)@.client,
            ok ==> final(self)@.sub == Some(SubsystemV { key: key@, sessid })
                && replies_to_client(
                r,
                old(self)@,
                MessageV::ServerStarted { key: key@ },
            ),
            !ok ==> final(self)@.sub is None && replies_to_client(
                r,
                old(self)@,
                MessageV::Failed { msg: connect_error_text() },
            ),
    {
        if ok {
            let reply_key = key.clone();
            self.sub = Some(Subsystem { key, sessid });
            match self.client {
                Some(c) => self.seal_reply(Message::ServerStarted { key: reply_key }, c),
                None => ServerAction::Ignore,
            }
        } else {
            self.sub = None;
            match self.client {
                Some(c) => self.seal_reply(
                    Message::Failed {
                        msg: "could not connect a local relay socket to mosh-server".to_owned(),
                    },
                    c,
                ),
                None => ServerAction::Ignore,
            }
        }
    }

    /// One payload from the subsystem's relay socket: forwarded verbatim to
    /// the most recently recorded client address, or dropped while none is
    /// known.
    pub fn on_subsystem_payload(&self, data: &Vec<u8>) -> (r: ServerAction)
        ensures
            match self@.client {
                Some(a) => r matches ServerAction::ForwardToClient { data: d, to } && d@ == data@
                    && to == a,
                None => r is Ignore,
            },
    {
        match self.client {
            Some(a) => ServerAction::ForwardToClient { data: copy_range(data, 0, data.len()), to: a },
            None => ServerAction::Ignore,
        }
    }

    /// The subsystem stopped answering (a relay send or receive failed): it
    /// is presumed dead and forgotten, so the next bootstrap request starts
    /// fresh.
    pub fn on_subsystem_failure(&mut self)
        ensures
            final(self)@ == (ServerV { sub: Option::<SubsystemV>::None, ..old(self)@ }),
    {
        self.sub = None;
    }

    /// Whether a subsystem is active and its relay socket should be watched.
    pub fn has_subsystem(&self) -> (r: bool)
        ensures
            r == (self@.sub is Some),
    {
        self.sub.is_some()
    }
}

} // verus!
