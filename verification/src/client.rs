//! The initiator's session: it sends the initial request, resends it on a
//! budget while waiting, reacts to the responder's replies, and once its
//! local subsystem runs it relays opaque traffic between the public socket
//! and the local relay socket, pinning the first local sender address.
//!
//! The session decides; it does no I/O. The surrounding loop hands it
//! timeouts and inbound datagrams and performs the returned action: sending,
//! spawning the subsystem, or exiting with the status the session names.
use vstd::prelude::*;

use crate::addr::PeerAddr;
use crate::message::{copy_range, Message, MessageV};
use crate::protocol::{
    cache_after_spec, decrypt, decrypt_result_spec, encrypt, envelope_message, random_bytes,
    CryptoError,
};
use crate::replay::{nonce_set_contents, NonceSet};
use crate::wire::read_u64_be;

verus! {

/// How many times the initial request is sent again when nothing answers.
pub const RESEND_BUDGET: usize = 50;

/// The mathematical state of a client session.
#[verifier::ext_equal]
pub ghost struct ClientV {
    pub key: Seq<u8>,
    pub cache: Set<Seq<u8>>,
    pub dest: PeerAddr,
    pub sessid: u64,
    pub ping_mode: bool,
    pub resend_budget: nat,
    /// `None`: no subsystem yet. `Some(pin)`: the subsystem runs, and `pin`
    /// is the learned relay peer address once one was observed.
    pub relay: Option<Option<PeerAddr>>,
}

/// The initiator session state.
pub struct Client {
    key: Vec<u8>,
    cache: NonceSet,
    dest: PeerAddr,
    sessid: u64,
    ping_mode: bool,
    resend_budget: usize,
    relay: Option<Option<PeerAddr>>,
}

impl View for Client {
    type V = ClientV;

    closed spec fn view(&self) -> ClientV {
        ClientV {
            key: self.key@,
            cache: nonce_set_contents(self.cache),
            dest: self.dest,
            sessid: self.sessid,
            ping_mode: self.ping_mode,
            resend_budget: self.resend_budget as nat,
            relay: self.relay,
        }
    }
}

/// What the session asks the surrounding loop to do.
pub enum ClientAction {
    /// Nothing; keep waiting.
    Ignore,
    /// Send these bytes to the destination over the public socket.
    SendPublic { data: Vec<u8> },
    /// Send these bytes to the subsystem over the local relay socket.
    ForwardToRelay { data: Vec<u8>, to: PeerAddr },
    /// An opaque datagram arrived for the subsystem before its relay peer
    /// address was learned; it cannot be delivered and is dropped.
    PrematureTraffic,
    /// Launch the local subsystem with this session key, then report back
    /// with `on_subsystem_spawned`.
    SpawnSubsystem { key: String },
    /// Terminate the whole process with this status.
    Exit { status: u8 },
}

/// How waiting on the spawned subsystem process ended.
pub enum SubsystemWait {
    /// The subsystem exited; whether its status was success.
    Exited { success: bool },
    /// Its exit could not be observed at all.
    WaitFailed,
}

/// The whole process adopts the subsystem's fate once it finishes: status 0
/// when it exited successfully, 4 on any other exit, and 3 when waiting for
/// it failed.
pub fn subsystem_exit_status(w: &SubsystemWait) -> (r: u8)
    ensures
        w matches SubsystemWait::Exited { success } ==> r == (if *success {
            0u8
        } else {
            4u8
        }),
        w matches SubsystemWait::WaitFailed ==> r == 3,
{
    match w {
        SubsystemWait::Exited { success } => {
            if *success {
                0
            } else {
                4
            }
        },
        SubsystemWait::WaitFailed => 3,
    }
}

/// The request this session opens with: a ping in diagnostic mode, otherwise
/// the bootstrap request carrying the session id.
pub open spec fn request_msg(c: ClientV) -> MessageV {
    if c.ping_mode {
        MessageV::Ping
    } else {
        MessageV::StartServer { sessid: c.sessid }
    }
}

/// A timeout triggers a resend while no subsystem runs and budget remains.
pub open spec fn timeout_sends(c: ClientV) -> bool {
    c.relay is None && c.resend_budget > 0
}

/// A timeout with no subsystem and no budget left gives up the handshake.
pub open spec fn timeout_exits(c: ClientV) -> bool {
    c.relay is None && c.resend_budget == 0
}

/// The state after one timeout: the budget shrinks on a resend.
pub open spec fn timeout_state(c: ClientV) -> ClientV {
    if timeout_sends(c) {
        ClientV { resend_budget: (c.resend_budget - 1) as nat, ..c }
    } else {
        c
    }
}

/// The state after `n` timeouts in a row with no inbound traffic.
pub open spec fn iter_timeout(c: ClientV, n: nat) -> ClientV
    decreases n,
{
    if n == 0 {
        c
    } else {
        timeout_state(iter_timeout(c, (n - 1) as nat))
    }
}

/// Resend bound: from a fresh session — no subsystem, the full budget — each
/// of the first 50 timeouts resends the request, spending one unit of budget,
/// and the timeout after the budget is spent gives up. With the initial
/// request, a silent peer sees exactly 51 requests before exit.
pub proof fn lemma_resend_bound(c: ClientV, n: nat)
    requires
        c.relay is None,
        c.resend_budget == RESEND_BUDGET,
        n <= RESEND_BUDGET,
    ensures
        iter_timeout(c, n).resend_budget == RESEND_BUDGET - n,
        iter_timeout(c, n).relay is None,
        n < RESEND_BUDGET ==> timeout_sends(iter_timeout(c, n)),
        n == RESEND_BUDGET ==> timeout_exits(iter_timeout(c, n)),
    decreases n,
{
    if n > 0 {
        lemma_resend_bound(c, (n - 1) as nat);
    }
}

/// The relay pin after a local packet from `from`: the first sender observed
/// is learned; afterwards the pin never moves.
pub open spec fn relay_pins(c: ClientV, from: PeerAddr) -> ClientV {
    if c.relay == Some(Option::<PeerAddr>::None) {
        ClientV { relay: Some(Some(from)), ..c }
    } else {
        c
    }
}

/// Whether a local packet from `from` is forwarded to the public socket: yes
/// while no pin exists (this packet sets it), or when it comes from the
/// pinned address; a packet from anywhere else is discarded.
pub open spec fn relay_forwards(c: ClientV, from: PeerAddr) -> bool {
    match c.relay {
        Some(pin) => match pin {
            Some(a) => from == a,
            None => true,
        },
        None => false,
    }
}

/// Address pinning: after a subsystem packet from address `a` arrives first,
/// `a` is pinned; a packet from any other address `b` is then discarded and
/// the pin stays on `a`.
pub proof fn lemma_address_pinning(c: ClientV, a: PeerAddr, b: PeerAddr)
    requires
        c.relay == Some(Option::<PeerAddr>::None),
        b != a,
    ensures
        relay_forwards(c, a),
        relay_pins(c, a).relay == Some(Some(a)),
        !relay_forwards(relay_pins(c, a), b),
        relay_pins(relay_pins(c, a), b) == relay_pins(c, a),
{
}

impl Client {
    /// The session is usable while it holds a full-size key.
    pub open spec fn wf(&self) -> bool {
        self@.key.len() == 32
    }

    /// A fresh initiator session toward `dest`: full resend budget, empty
    /// replay cache, no subsystem, and a session id drawn from the entropy
    /// source.
    pub fn new(dest: PeerAddr, key: Vec<u8>, ping_mode: bool) -> (r: Result<Client, CryptoError>)
        requires
            key@.len() == 32,
        ensures
            (r matches Ok(c) ==> c.wf() && c@.key == key@ && c@.dest == dest && c@.ping_mode
                == ping_mode && c@.resend_budget == RESEND_BUDGET && c@.cache == Set::<
                Seq<u8>,
            >::empty() && c@.relay is None),
            r matches Err(e) ==> e == CryptoError::EntropyFailure,
    {
        let sessid_bytes = match random_bytes(8) {
            Ok(v) => v,
            Err(e) => {
                return Err(e);
            },
        };
        let sessid = read_u64_be(&sessid_bytes, 0);
        Ok(
            Client {
                key,
                cache: NonceSet::new(),
                dest,
                sessid,
                ping_mode,
                resend_budget: RESEND_BUDGET,
                relay: None,
            },
        )
    }

    fn request_message(&self) -> (r: Message)
        ensures
            r@ == request_msg(self@),
    {
        if self.ping_mode {
            Message::Ping
        } else {
            Message::StartServer { sessid: self.sessid }
        }
    }

    /// The encrypted initial request, sent once on entry to the waiting
    /// state. It does not spend resend budget.
    pub fn initial_request(&self) -> (r: Result<Vec<u8>, CryptoError>)
        requires
            self.wf(),
        ensures
            r matches Ok(pkt) ==> envelope_message(pkt@, self@.key) == Some(request_msg(self@)),
            r matches Err(e) ==> e == CryptoError::EntropyFailure,
    {
        let msg = self.request_message();
        encrypt(&msg, &self.key)
    }

    /// One readiness timeout: while no subsystem runs, resend the request if
    /// budget remains, otherwise give up with status 2; once the subsystem
    /// runs, timeouts mean nothing. Fails only if the entropy source fails
    /// while sealing the resend.
    pub fn on_timeout(&mut self) -> (r: Result<ClientAction, CryptoError>)
        requires
            old(self).wf(),
        ensures
            final(self).wf(),
            r is Err ==> final(self)@ == old(self)@,
            r matches Err(e) ==> e == CryptoError::EntropyFailure,
            old(self)@.relay is Some || old(self)@.resend_budget == 0 ==> (r is Ok),
            r is Ok ==> final(self)@ == timeout_state(old(self)@),
            (r matches Ok(a) ==> match a {
                ClientAction::SendPublic { data } => timeout_sends(old(self)@)
                    && envelope_message(data@, old(self)@.key) == Some(request_msg(old(self)@)),
                ClientAction::Exit { status } => timeout_exits(old(self)@) && status == 2,
                ClientAction::Ignore => old(self)@.relay is Some,
                _ => false,
            }),
    {
        if self.relay.is_some() {
            return Ok(ClientAction::Ignore);
        }
        if self.resend_budget == 0 {
            return Ok(ClientAction::Exit { status: 2 });
        }
        let msg = self.request_message();
        let pkt = match encrypt(&msg, &self.key) {
            Ok(p) => p,
            Err(e) => {
                return Err(e);
            },
        };
        self.resend_budget = self.resend_budget - 1;
        Ok(ClientAction::SendPublic { data: pkt })
    }

    /// One datagram from the public socket. Traffic not from the destination
    /// is discarded. A datagram that authenticates as a protocol message
    /// drives the handshake: a pong ends diagnostic mode with status 0, the
    /// responder's bootstrap reply asks the loop to spawn the subsystem with
    /// the delivered key, an explicit failure reply exits with status 1, and
    /// stray variants are dropped. A datagram that does not authenticate is
    /// opaque subsystem traffic: it is forwarded to the pinned relay address
    /// once one is learned, and reported as premature before that.
    pub fn on_public_datagram(&mut self, pkt: &Vec<u8>, from: PeerAddr) -> (r: ClientAction)
        requires
            old(self).wf(),
        ensures
            final(self).wf(),
            final(self)@ == (ClientV { cache: final(self)@.cache, ..old(self)@ }),
            from != old(self)@.dest ==> final(self)@ == old(self)@ && (r is Ignore),
            from == old(self)@.dest ==> final(self)@.cache == cache_after_spec(
                pkt@,
                old(self)@.key,
                old(self)@.cache,
            ) && (match decrypt_result_spec(pkt@, old(self)@.key, old(self)@.cache) {
                Ok(m) => match m {
                    MessageV::Ping => r is Ignore,
                    MessageV::Pong => if old(self)@.ping_mode {
                        r matches ClientAction::Exit { status } && status == 0
                    } else {
                        r is Ignore
                    },
                    MessageV::StartServer { .. } => r is Ignore,
                    MessageV::ServerStarted { key } => if old(self)@.ping_mode {
                        r is Ignore
                    } else {
                        r matches ClientAction::SpawnSubsystem { key: k } && k@ == key
                    },
                    MessageV::Failed { .. } => r matches ClientAction::Exit { status } && status
                        == 1,
                },
                Err(_) => match old(self)@.relay {
                    Some(pin) => match pin {
                        Some(a) => r matches ClientAction::ForwardToRelay { data, to } && data@
                            == pkt@ && to == a,
                        None => r is PrematureTraffic,
                    },
                    None => r is Ignore,
                },
            }),
    {
        if from != self.dest {
            return ClientAction::Ignore;
        }
        let m = match decrypt(pkt, &self.key, &mut self.cache) {
            Ok(m) => m,
            Err(_) => {
                return match &self.relay {
                    Some(pin) => match pin {
                        Some(a) => ClientAction::ForwardToRelay {
                            data: copy_range(pkt, 0, pkt.len()),
                            to: *a,
                        },
                        None => ClientAction::PrematureTraffic,
                    },
                    None => ClientAction::Ignore,
                };
            },
        };
        match m {
            Message::Ping => ClientAction::Ignore,
            Message::Pong => {
                if self.ping_mode {
                    ClientAction::Exit { status: 0 }
                } else {
                    ClientAction::Ignore
                }
            },
            Message::StartServer { .. } => ClientAction::Ignore,
            Message::ServerStarted { key } => {
                if self.ping_mode {
                    ClientAction::Ignore
                } else {
                    ClientAction::SpawnSubsystem { key }
                }
            },
            Message::Failed { .. } => ClientAction::Exit { status: 1 },
        }
    }

    /// The loop reports how spawning the subsystem went: on success the
    /// session enters the established state with no relay peer learned yet;
    /// on failure the whole process exits with status 3.
    pub fn on_subsystem_spawned(&mut self, ok: bool) -> (r: ClientAction)
        requires
            old(self).wf(),
        ensures
            final(self).wf(),
            ok ==> final(self)@ == (ClientV {
                relay: Some(Option::<PeerAddr>::None),
                ..old(self)@
            }) && (r is Ignore),
            !ok ==> final(self)@ == old(self)@ && (r matches ClientAction::Exit { status }
                && status == 3),
    {
        if ok {
            self.relay = Some(None);
            ClientAction::Ignore
        } else {
            ClientAction::Exit { status: 3 }
        }
    }

    /// One payload from the local relay socket. The first sender address
    /// observed is pinned as the subsystem's address; payloads from the
    /// pinned address are forwarded verbatim to the destination over the
    /// public socket, payloads from anywhere else are discarded.
    pub fn on_relay_payload(&mut self, data: &Vec<u8>, from: PeerAddr) -> (r: ClientAction)
        requires
            old(self).wf(),
        ensures
            final(self).wf(),
            final(self)@ == relay_pins(old(self)@, from),
            relay_forwards(old(self)@, from) ==> (r matches ClientAction::SendPublic { data: d }
                && d@ == data@),
            !relay_forwards(old(self)@, from) ==> (r is Ignore),
    {
        match &self.relay {
            None => ClientAction::Ignore,
            Some(pin) => match pin {
                None => {
                    self.relay = Some(Some(from));
                    ClientAction::SendPublic { data: copy_range(data, 0, data.len()) }
                },
                Some(a) => {
                    if from == *a {
                        ClientAction::SendPublic { data: copy_range(data, 0, data.len()) }
                    } else {
                        ClientAction::Ignore
                    }
                },
            },
        }
    }

    /// The readiness wait the loop should use: 200 ms while still waiting for
    /// the handshake, unbounded once the subsystem runs.
    pub fn wait_timeout_ms(&self) -> (r: i32)
        ensures
            self@.relay is Some ==> r == -1,
            self@.relay is None ==> r == 200,
    {
        if self.relay.is_some() {
            -1
        } else {
            200
        }
    }

    /// Whether the local relay socket exists and should be watched.
    pub fn has_relay(&self) -> (r: bool)
        ensures
            r == (self@.relay is Some),
    {
        self.relay.is_some()
    }

    /// The fixed remote destination of the public socket.
    pub fn destination(&self) -> (r: PeerAddr)
        ensures
            r == self@.dest,
    {
        self.dest
    }
}

} // verus!
