//! The inner protocol message and its wire encoding: a fixed-width big-endian
//! tag followed by the variant's fields. Text fields are written as a
//! `u64` byte length followed by their UTF-8 bytes.
use vstd::prelude::*;
use vstd::utf8::*;

use crate::wire::{
    lemma_u32_be_roundtrip, lemma_u64_be_roundtrip, push_u32_be, push_u64_be, read_u32_be,
    read_u64_be, u32_bytes_be, u32_of_be, u64_bytes_be, u64_of_be,
};

verus! {

pub const TAG_PING: u32 = 0;

pub const TAG_PONG: u32 = 1;

pub const TAG_START_SERVER: u32 = 2;

pub const TAG_SERVER_STARTED: u32 = 3;

pub const TAG_FAILED: u32 = 4;

/// A plaintext protocol message, recovered only after successful decryption.
#[derive(Debug, PartialEq, Eq)]
pub enum Message {
    Ping,
    Pong,
    StartServer { sessid: u64 },
    ServerStarted { key: String },
    Failed { msg: String },
}

/// The mathematical value of a `Message`: text fields as character sequences.
#[verifier::ext_equal]
pub ghost enum MessageV {
    Ping,
    Pong,
    StartServer { sessid: u64 },
    ServerStarted { key: Seq<char> },
    Failed { msg: Seq<char> },
}

impl View for Message {
    type V = MessageV;

    open spec fn view(&self) -> MessageV {
        match self {
            Message::Ping => MessageV::Ping,
            Message::Pong => MessageV::Pong,
            Message::StartServer { sessid } => MessageV::StartServer { sessid: *sessid },
            Message::ServerStarted { key } => MessageV::ServerStarted { key: key@ },
            Message::Failed { msg } => MessageV::Failed { msg: msg@ },
        }
    }
}

/// The encoding of a text field: length prefix, then UTF-8 bytes.
pub open spec fn text_bytes(s: Seq<char>) -> Seq<u8> {
    u64_bytes_be(encode_utf8(s).len() as u64) + encode_utf8(s)
}

/// The wire bytes of a message.
pub open spec fn message_bytes(m: MessageV) -> Seq<u8> {
    match m {
        MessageV::Ping => u32_bytes_be(TAG_PING),
        MessageV::Pong => u32_bytes_be(TAG_PONG),
        MessageV::StartServer { sessid } => u32_bytes_be(TAG_START_SERVER) + u64_bytes_be(sessid),
        MessageV::ServerStarted { key } => u32_bytes_be(TAG_SERVER_STARTED) + text_bytes(key),
        MessageV::Failed { msg } => u32_bytes_be(TAG_FAILED) + text_bytes(msg),
    }
}

/// The length prefix of a text field only represents its true length when the
/// UTF-8 encoding fits in a `u64`; every message built from an in-memory
/// string satisfies this.
pub open spec fn wf_message(m: MessageV) -> bool {
    match m {
        MessageV::ServerStarted { key } => encode_utf8(key).len() < 0x1_0000_0000_0000_0000,
        MessageV::Failed { msg } => encode_utf8(msg).len() < 0x1_0000_0000_0000_0000,
        _ => true,
    }
}

/// What a byte sequence decodes to, if anything: the exact inverse relation of
/// `message_bytes`, with no trailing bytes accepted.
pub open spec fn decode_message_spec(b: Seq<u8>) -> Option<MessageV> {
    if b.len() < 4 {
        None
    } else {
        let tag = u32_of_be(b.subrange(0, 4));
        if tag == TAG_PING {
            if b.len() == 4 {
                Some(MessageV::Ping)
            } else {
                None
            }
        } else if tag == TAG_PONG {
            if b.len() == 4 {
                Some(MessageV::Pong)
            } else {
                None
            }
        } else if tag == TAG_START_SERVER {
            if b.len() == 12 {
                Some(MessageV::StartServer { sessid: u64_of_be(b.subrange(4, 12)) })
            } else {
                None
            }
        } else if tag == TAG_SERVER_STARTED || tag == TAG_FAILED {
            if b.len() >= 12 && u64_of_be(b.subrange(4, 12)) as int == b.len() - 12 && valid_utf8(
                b.skip(12),
            ) {
                if tag == TAG_SERVER_STARTED {
                    Some(MessageV::ServerStarted { key: decode_utf8(b.skip(12)) })
                } else {
                    Some(MessageV::Failed { msg: decode_utf8(b.skip(12)) })
                }
            } else {
                None
            }
        } else {
            None
        }
    }
}

/// Decoding the bytes of a message yields the message again.
pub proof fn lemma_message_bytes_roundtrip(m: MessageV)
    requires
        wf_message(m),
    ensures
        decode_message_spec(message_bytes(m)) == Some(m),
{
    let b = message_bytes(m);
    match m {
        MessageV::Ping => {
            assert(b.subrange(0, 4) =~= u32_bytes_be(TAG_PING));
            lemma_u32_be_roundtrip(TAG_PING);
        },
        MessageV::Pong => {
            assert(b.subrange(0, 4) =~= u32_bytes_be(TAG_PONG));
            lemma_u32_be_roundtrip(TAG_PONG);
        },
        MessageV::StartServer { sessid } => {
            assert(b.subrange(0, 4) =~= u32_bytes_be(TAG_START_SERVER));
            lemma_u32_be_roundtrip(TAG_START_SERVER);
            assert(b.subrange(4, 12) =~= u64_bytes_be(sessid));
            lemma_u64_be_roundtrip(sessid);
        },
        MessageV::ServerStarted { key } => {
            let u = encode_utf8(key);
            assert(b.subrange(0, 4) =~= u32_bytes_be(TAG_SERVER_STARTED));
            lemma_u32_be_roundtrip(TAG_SERVER_STARTED);
            assert(b.subrange(4, 12) =~= u64_bytes_be(u.len() as u64));
            lemma_u64_be_roundtrip(u.len() as u64);
            assert(b.skip(12) =~= u);
            encode_utf8_valid_utf8(key);
            encode_utf8_decode_utf8(key);
        },
        MessageV::Failed { msg } => {
            let u = encode_utf8(msg);
            assert(b.subrange(0, 4) =~= u32_bytes_be(TAG_FAILED));
            lemma_u32_be_roundtrip(TAG_FAILED);
            assert(b.subrange(4, 12) =~= u64_bytes_be(u.len() as u64));
            lemma_u64_be_roundtrip(u.len() as u64);
            assert(b.skip(12) =~= u);
            encode_utf8_valid_utf8(msg);
            encode_utf8_decode_utf8(msg);
        },
    }
}

/// Appends the length-prefixed UTF-8 bytes of `s` to `out`.
fn push_text(out: &mut Vec<u8>, s: &String)
    ensures
        final(out)@ == old(out)@ + text_bytes(s@),
{
    let bs: &[u8] = s.as_str().as_bytes();
    push_u64_be(out, bs.len() as u64);
    out.extend_from_slice(bs);
    assert(out@ =~= old(out)@ + text_bytes(s@));
}

/// Serializes a message into its wire bytes.
pub fn encode_message(msg: &Message) -> (r: Vec<u8>)
    ensures
        r@ == message_bytes(msg@),
{
    let mut out: Vec<u8> = Vec::new();
    match msg {
        Message::Ping => {
            push_u32_be(&mut out, TAG_PING);
            assert(out@ =~= message_bytes(msg@));
        },
        Message::Pong => {
            push_u32_be(&mut out, TAG_PONG);
            assert(out@ =~= message_bytes(msg@));
        },
        Message::StartServer { sessid } => {
            push_u32_be(&mut out, TAG_START_SERVER);
            push_u64_be(&mut out, *sessid);
            assert(out@ =~= message_bytes(msg@));
        },
        Message::ServerStarted { key } => {
            push_u32_be(&mut out, TAG_SERVER_STARTED);
            push_text(&mut out, key);
            assert(out@ =~= message_bytes(msg@));
        },
        Message::Failed { msg: text } => {
            push_u32_be(&mut out, TAG_FAILED);
            push_text(&mut out, text);
            assert(out@ =~= message_bytes(msg@));
        },
    }
    out
}

/// Relies on `String::from_utf8`: it succeeds exactly on valid UTF-8 input,
/// and the resulting string holds the decoded scalar values.
#[verifier::external_body]
pub(crate) fn bytes_to_string(b: Vec<u8>) -> (r: Option<String>)
    ensures
        match r {
            Some(s) => valid_utf8(b@) && s@ == decode_utf8(b@),
            None => !valid_utf8(b@),
        },
{
    match String::from_utf8(b) {
        Ok(s) => Some(s),
        Err(_) => None,
    }
}

/// Copies `b[from..to]` into a fresh vector.
pub fn copy_range(b: &Vec<u8>, from: usize, to: usize) -> (r: Vec<u8>)
    requires
        from <= to,
        to <= b@.len(),
    ensures
        r@ == b@.subrange(from as int, to as int),
{
    let mut out: Vec<u8> = Vec::new();
    let mut i: usize = from;
    while i < to
        invariant
            from <= i <= to,
            to <= b@.len(),
            out@ == b@.subrange(from as int, i as int),
        decreases to - i,
    {
        out.push(b[i]);
        i = i + 1;
        proof {
            assert(out@ =~= b@.subrange(from as int, i as int));
        }
    }
    out
}

/// Deserializes a message from its wire bytes; `None` exactly where the spec
/// decoder rejects.
pub fn decode_message(b: &Vec<u8>) -> (r: Option<Message>)
    ensures
        match r {
            Some(m) => decode_message_spec(b@) == Some(m@),
            None => decode_message_spec(b@) is None,
        },
{
    let n: usize = b.len();
    if n < 4 {
        return None;
    }
    let tag = read_u32_be(b, 0);
    if tag == TAG_PING {
        if n == 4 {
            Some(Message::Ping)
        } else {
            None
        }
    } else if tag == TAG_PONG {
        if n == 4 {
            Some(Message::Pong)
        } else {
            None
        }
    } else if tag == TAG_START_SERVER {
        if n == 12 {
            let sessid = read_u64_be(b, 4);
            Some(Message::StartServer { sessid })
        } else {
            None
        }
    } else if tag == TAG_SERVER_STARTED || tag == TAG_FAILED {
        if n < 12 {
            return None;
        }
        let dl = read_u64_be(b, 4);
        if dl != (n - 12) as u64 {
            return None;
        }
        let tail = copy_range(b, 12, n);
        proof {
            assert(tail@ =~= b@.skip(12));
        }
        match bytes_to_string(tail) {
            Some(text) => {
                if tag == TAG_SERVER_STARTED {
                    Some(Message::ServerStarted { key: text })
                } else {
                    Some(Message::Failed { msg: text })
                }
            },
            None => None,
        }
    } else {
        None
    }
}

} // verus!
