//! The authenticated datagram codec: the outer wire envelope, AEAD sealing
//! and opening, and the replay defense. `encrypt` and `decrypt` are the only
//! doors between raw bytes on the public socket and protocol messages.
use vstd::prelude::*;

use chacha20poly1305::aead::Aead;
use chacha20poly1305::{KeyInit, XChaCha20Poly1305, XNonce};

use crate::message::{
    decode_message, decode_message_spec, encode_message, lemma_message_bytes_roundtrip,
    message_bytes, Message, MessageV,
};
use crate::replay::{nonce_set_contents, NonceSet};
use crate::wire::{
    lemma_u32_be_roundtrip, lemma_u64_be_roundtrip, push_u32_be, push_u64_be, read_u32_be,
    read_u64_be, u32_bytes_be, u32_of_be, u64_bytes_be, u64_of_be,
};

verus! {

/// Magic constant that marks the outer wire envelope.
pub const MAGIC: u32 = 0x55644d6f;

/// Nonces are 24 raw bytes, drawn fresh for every encryption.
pub const NONCE_LEN: usize = 24;

/// The pre-shared key is 32 bytes.
pub const KEY_LEN: usize = 32;

/// The authentication tag the AEAD appends to every ciphertext.
pub const TAG_LEN: usize = 16;

/// Decoding is bounded: an envelope longer than this is rejected outright.
pub const MAX_ENVELOPE: usize = 1024;

/// The replay cache is cleared wholesale before an insertion would push it
/// past this many entries.
pub const REPLAY_FLUSH_LIMIT: usize = 1000000;

/// Why an inbound datagram was rejected.
#[derive(Debug, Clone, Copy, PartialEq, Eq, Structural)]
pub enum ProtocolError {
    /// The envelope was malformed or larger than the decode bound.
    DecodeTooLarge,
    /// The envelope parsed but did not carry the magic value.
    MagicMismatch,
    /// The ciphertext failed authentication, or the plaintext was not a
    /// protocol message; the two are indistinguishable to the caller.
    AuthenticationFailure,
    /// The nonce was already accepted once on this channel.
    ReplayDetected,
}

/// Why an encryption could not be performed.
#[derive(Debug, Clone, Copy, PartialEq, Eq, Structural)]
pub enum CryptoError {
    /// The system entropy source failed.
    EntropyFailure,
    /// The serialized message is too large to seal in one datagram.
    Oversize,
}

/// The outer wire envelope.
pub struct Datagram {
    magic: u32,
    nonce: Vec<u8>,
    data: Vec<u8>,
}

/// The mathematical value of a `Datagram`.
#[verifier::ext_equal]
pub ghost struct DatagramV {
    pub magic: u32,
    pub nonce: Seq<u8>,
    pub data: Seq<u8>,
}

impl View for Datagram {
    type V = DatagramV;

    closed spec fn view(&self) -> DatagramV {
        DatagramV { magic: self.magic, nonce: self.nonce@, data: self.data@ }
    }
}

/// The wire bytes of an envelope: magic, nonce, length-prefixed ciphertext,
/// all integers fixed-width big-endian.
pub open spec fn datagram_bytes(d: DatagramV) -> Seq<u8> {
    u32_bytes_be(d.magic) + d.nonce + u64_bytes_be(d.data.len() as u64) + d.data
}

/// What a byte sequence parses to as an envelope, if anything: the length
/// prefix must account for exactly the remaining bytes.
pub open spec fn parse_datagram(b: Seq<u8>) -> Option<DatagramV> {
    if b.len() >= 36 && u64_of_be(b.subrange(28, 36)) as int == b.len() - 36 {
        Some(
            DatagramV {
                magic: u32_of_be(b.subrange(0, 4)),
                nonce: b.subrange(4, 28),
                data: b.skip(36),
            },
        )
    } else {
        None
    }
}

/// The nonce of a parseable envelope; empty otherwise.
pub open spec fn envelope_nonce(b: Seq<u8>) -> Seq<u8> {
    match parse_datagram(b) {
        Some(d) => d.nonce,
        None => Seq::empty(),
    }
}

/// The magic field of a parseable envelope; zero otherwise.
pub open spec fn envelope_magic(b: Seq<u8>) -> u32 {
    match parse_datagram(b) {
        Some(d) => d.magic,
        None => 0,
    }
}

/// Parsing the bytes of an envelope yields the envelope again.
pub proof fn lemma_datagram_roundtrip(d: DatagramV)
    requires
        d.nonce.len() == 24,
        d.data.len() < 0x1_0000_0000_0000_0000,
    ensures
        parse_datagram(datagram_bytes(d)) == Some(d),
{
    let b = datagram_bytes(d);
    assert(b.subrange(0, 4) =~= u32_bytes_be(d.magic));
    lemma_u32_be_roundtrip(d.magic);
    assert(b.subrange(4, 28) =~= d.nonce);
    assert(b.subrange(28, 36) =~= u64_bytes_be(d.data.len() as u64));
    lemma_u64_be_roundtrip(d.data.len() as u64);
    assert(b.skip(36) =~= d.data);
    assert(parse_datagram(b) == Some(d));
}

/// Parses an envelope from raw bytes; `None` exactly where the spec parser
/// rejects. The input length is not bounded here; `decrypt` bounds it first.
pub fn decode_datagram(b: &Vec<u8>) -> (r: Option<Datagram>)
    ensures
        match r {
            Some(d) => parse_datagram(b@) == Some(d@),
            None => parse_datagram(b@) is None,
        },
{
    let n: usize = b.len();
    if n < 36 {
        return None;
    }
    let dl = read_u64_be(b, 28);
    if dl != (n - 36) as u64 {
        return None;
    }
    let magic = read_u32_be(b, 0);
    let nonce = crate::message::copy_range(b, 4, 28);
    let data = crate::message::copy_range(b, 36, n);
    proof {
        assert(data@ =~= b@.skip(36));
    }
    Some(Datagram { magic, nonce, data })
}

/// What sealing returns: a function of key, nonce and plaintext alone.
pub uninterp spec fn seal_of(key: Seq<u8>, nonce: Seq<u8>, plain: Seq<u8>) -> Seq<u8>;

/// What opening returns: a function of key, nonce and ciphertext alone.
pub uninterp spec fn open_of(key: Seq<u8>, nonce: Seq<u8>, ct: Seq<u8>) -> Option<Seq<u8>>;

/// Relies on chacha20poly1305's XChaCha20Poly1305 encryption (through
/// `aead::Aead`): the ciphertext is the plaintext XORed with a keystream
/// derived from key and nonce, followed by the 16-byte Poly1305 tag — a
/// deterministic function of the three arguments — and decrypting it with the
/// same key and nonce returns the plaintext. Encryption only fails above a
/// plaintext size far beyond the bound required here.
#[verifier::external_body]
fn aead_seal(key: &Vec<u8>, nonce: &Vec<u8>, plain: &Vec<u8>) -> (r: Vec<u8>)
    requires
        key@.len() == 32,
        nonce@.len() == 24,
        plain@.len() <= 0xFFFF_FFFF,
    ensures
        r@ == seal_of(key@, nonce@, plain@),
        r@.len() == plain@.len() + 16,
        open_of(key@, nonce@, r@) == Some(plain@),
{
    let cipher = XChaCha20Poly1305::new(chacha20poly1305::Key::from_slice(key.as_slice()));
    cipher.encrypt(XNonce::from_slice(nonce.as_slice()), plain.as_slice()).unwrap()
}

/// Relies on chacha20poly1305's XChaCha20Poly1305 decryption (through
/// `aead::Aead`): it verifies the Poly1305 tag of the ciphertext and, only if
/// it matches, returns the body XORed with the keystream; both the check and
/// the result are deterministic in key, nonce and ciphertext.
#[verifier::external_body]
fn aead_open(key: &Vec<u8>, nonce: &Vec<u8>, ct: &Vec<u8>) -> (r: Option<Vec<u8>>)
    requires
        key@.len() == 32,
        nonce@.len() == 24,
        ct@.len() <= 0xFFFF_FFFF,
    ensures
        match r {
            Some(p) => open_of(key@, nonce@, ct@) == Some(p@),
            None => open_of(key@, nonce@, ct@) is None,
        },
{
    let cipher = XChaCha20Poly1305::new(chacha20poly1305::Key::from_slice(key.as_slice()));
    match cipher.decrypt(XNonce::from_slice(nonce.as_slice()), ct.as_slice()) {
        Ok(p) => Some(p),
        Err(_) => None,
    }
}

/// Relies on `getrandom::getrandom`: on success the buffer is filled from the
/// operating system's entropy source; nothing is assumed about the values.
#[verifier::external_body]
pub(crate) fn random_bytes(n: usize) -> (r: Result<Vec<u8>, CryptoError>)
    ensures
        r matches Ok(v) ==> v@.len() == n,
        r matches Err(e) ==> e == CryptoError::EntropyFailure,
{
    let mut buf = vec![0u8; n];
    match getrandom::getrandom(&mut buf) {
        Ok(()) => Ok(buf),
        Err(_) => Err(CryptoError::EntropyFailure),
    }
}

/// The message carried by an envelope under `key`, if any: the envelope
/// parses, carries the magic value, its ciphertext opens, and the plaintext
/// decodes.
pub open spec fn envelope_message(b: Seq<u8>, key: Seq<u8>) -> Option<MessageV> {
    match parse_datagram(b) {
        Some(d) => if d.magic == MAGIC {
            match open_of(key, d.nonce, d.data) {
                Some(p) => decode_message_spec(p),
                None => None,
            }
        } else {
            None
        },
        None => None,
    }
}

/// The exact outcome of decrypting `b` under `key` against a cache holding
/// `cache`: the decode bound first, then envelope shape, magic, ciphertext
/// authentication, replay, and finally the inner decode.
pub open spec fn decrypt_result_spec(b: Seq<u8>, key: Seq<u8>, cache: Set<Seq<u8>>) -> Result<
    MessageV,
    ProtocolError,
> {
    if b.len() > MAX_ENVELOPE {
        Err(ProtocolError::DecodeTooLarge)
    } else {
        match parse_datagram(b) {
            None => Err(ProtocolError::DecodeTooLarge),
            Some(d) => {
                if d.magic != MAGIC {
                    Err(ProtocolError::MagicMismatch)
                } else {
                    match open_of(key, d.nonce, d.data) {
                        None => Err(ProtocolError::AuthenticationFailure),
                        Some(p) => {
                            if cache.contains(d.nonce) {
                                Err(ProtocolError::ReplayDetected)
                            } else {
                                match decode_message_spec(p) {
                                    Some(m) => Ok(m),
                                    None => Err(ProtocolError::AuthenticationFailure),
                                }
                            }
                        },
                    }
                }
            },
        }
    }
}

/// The replay cache after decrypting `b`: the nonce is recorded exactly when
/// the envelope authenticated and was not a replay — whether or not the inner
/// decode then succeeded — and the cache is flushed wholesale first if the
/// insertion would push it past the limit.
pub open spec fn cache_after_spec(b: Seq<u8>, key: Seq<u8>, cache: Set<Seq<u8>>) -> Set<Seq<u8>> {
    if b.len() <= MAX_ENVELOPE {
        match parse_datagram(b) {
            Some(d) => if d.magic == MAGIC && open_of(key, d.nonce, d.data) is Some
                && !cache.contains(d.nonce) {
                (if cache.len() >= REPLAY_FLUSH_LIMIT as nat {
                    Set::<Seq<u8>>::empty()
                } else {
                    cache
                }).insert(d.nonce)
            } else {
                cache
            },
            None => cache,
        }
    } else {
        cache
    }
}

/// Serializes `msg`, seals it under `key` with a fresh random nonce, and
/// wraps it in the outer envelope. Fails only when the entropy source fails,
/// or — unreachable for any message that fits in memory on this protocol's
/// scale — when the serialized message exceeds the sealing bound.
pub fn encrypt(msg: &Message, key: &Vec<u8>) -> (r: Result<Vec<u8>, CryptoError>)
    requires
        key@.len() == 32,
    ensures
        (r matches Ok(pkt) ==> envelope_message(pkt@, key@) == Some(msg@) && pkt@.len() == 52
            + message_bytes(msg@).len() && parse_datagram(pkt@) is Some && envelope_nonce(
            pkt@,
        ).len() == 24),
        message_bytes(msg@).len() > 0xFFFF_FFFF <==> r == Err::<Vec<u8>, CryptoError>(
            CryptoError::Oversize,
        ),
{
    let plain = encode_message(msg);
    if plain.len() as u64 > 0xFFFF_FFFFu64 {
        return Err(CryptoError::Oversize);
    }
    let nonce = match random_bytes(NONCE_LEN) {
        Ok(v) => v,
        Err(e) => {
            return Err(e);
        },
    };
    let ct = aead_seal(key, &nonce, &plain);
    let mut out: Vec<u8> = Vec::new();
    push_u32_be(&mut out, MAGIC);
    out.extend_from_slice(nonce.as_slice());
    push_u64_be(&mut out, ct.len() as u64);
    out.extend_from_slice(ct.as_slice());
    proof {
        let d = DatagramV { magic: MAGIC, nonce: nonce@, data: ct@ };
        assert(out@ =~= datagram_bytes(d));
        lemma_datagram_roundtrip(d);
        lemma_message_bytes_roundtrip(msg@);
    }
    Ok(out)
}

/// Spec-level agreement between an executable decryption outcome and the
/// model's.
pub open spec fn decrypt_agrees(
    r: Result<Message, ProtocolError>,
    s: Result<MessageV, ProtocolError>,
) -> bool {
    match r {
        Ok(m) => s == Ok::<MessageV, ProtocolError>(m@),
        Err(e) => s == Err::<MessageV, ProtocolError>(e),
    }
}

/// Deserializes and authenticates an inbound datagram, updating the replay
/// cache. The outcome and the new cache contents are exactly those of the
/// spec model. The envelope length is checked before anything is copied, so
/// a datagram claiming an oversize payload costs no proportional allocation.
pub fn decrypt(pkt: &Vec<u8>, key: &Vec<u8>, cache: &mut NonceSet) -> (r: Result<
    Message,
    ProtocolError,
>)
    requires
        key@.len() == 32,
    ensures
        decrypt_agrees(r, decrypt_result_spec(pkt@, key@, nonce_set_contents(*old(cache)))),
        nonce_set_contents(*final(cache)) == cache_after_spec(
            pkt@,
            key@,
            nonce_set_contents(*old(cache)),
        ),
{
    if pkt.len() > MAX_ENVELOPE {
        return Err(ProtocolError::DecodeTooLarge);
    }
    let dg = match decode_datagram(pkt) {
        Some(d) => d,
        None => {
            return Err(ProtocolError::DecodeTooLarge);
        },
    };
    if dg.magic != MAGIC {
        return Err(ProtocolError::MagicMismatch);
    }
    let plain = match aead_open(key, &dg.nonce, &dg.data) {
        Some(p) => p,
        None => {
            return Err(ProtocolError::AuthenticationFailure);
        },
    };
    if cache.contains(&dg.nonce) {
        return Err(ProtocolError::ReplayDetected);
    }
    if cache.len() >= REPLAY_FLUSH_LIMIT {
        cache.clear();
    }
    cache.insert(dg.nonce);
    match decode_message(&plain) {
        Some(m) => Ok(m),
        None => Err(ProtocolError::AuthenticationFailure),
    }
}

/// Round trip: an envelope produced by `encrypt` under a key decrypts under
/// the same key, against any cache that does not yet hold its nonce, to the
/// message that was encrypted; and its nonce is then recorded in the cache.
/// A fresh cache holds no nonce, so this covers it in particular.
pub proof fn lemma_round_trip(pkt: Seq<u8>, key: Seq<u8>, m: MessageV, cache: Set<Seq<u8>>)
    requires
        envelope_message(pkt, key) == Some(m),
        pkt.len() <= MAX_ENVELOPE,
        !cache.contains(envelope_nonce(pkt)),
    ensures
        decrypt_result_spec(pkt, key, cache) == Ok::<MessageV, ProtocolError>(m),
        cache_after_spec(pkt, key, cache).contains(envelope_nonce(pkt)),
{
}

/// Replay rejection: once a decryption has succeeded, decrypting the very
/// same envelope against the updated cache fails with `ReplayDetected`, and
/// leaves the cache as it is.
pub proof fn lemma_replay_rejected(pkt: Seq<u8>, key: Seq<u8>, cache: Set<Seq<u8>>)
    requires
        decrypt_result_spec(pkt, key, cache) is Ok,
    ensures
        decrypt_result_spec(pkt, key, cache_after_spec(pkt, key, cache)) == Err::<
            MessageV,
            ProtocolError,
        >(ProtocolError::ReplayDetected),
        cache_after_spec(pkt, key, cache_after_spec(pkt, key, cache)) == cache_after_spec(
            pkt,
            key,
            cache,
        ),
{
}

/// Magic check: an envelope that parses but carries a wrong magic value is
/// rejected with `MagicMismatch` under every key — the rejection precedes any
/// decryption attempt — and the cache is untouched.
pub proof fn lemma_magic_checked_first(pkt: Seq<u8>, cache: Set<Seq<u8>>)
    requires
        pkt.len() <= MAX_ENVELOPE,
        parse_datagram(pkt) is Some,
        envelope_magic(pkt) != MAGIC,
    ensures
        forall|key: Seq<u8>|
            #[trigger] decrypt_result_spec(pkt, key, cache) == Err::<MessageV, ProtocolError>(
                ProtocolError::MagicMismatch,
            ),
        forall|key: Seq<u8>| #[trigger] cache_after_spec(pkt, key, cache) == cache,
{
}

/// Size bound: a datagram longer than the decode bound, or one whose declared
/// ciphertext length does not match what it carries, is rejected with
/// `DecodeTooLarge` under every key, and the cache is untouched.
pub proof fn lemma_oversize_rejected(pkt: Seq<u8>, cache: Set<Seq<u8>>)
    requires
        pkt.len() > MAX_ENVELOPE || parse_datagram(pkt) is None,
    ensures
        forall|key: Seq<u8>|
            #[trigger] decrypt_result_spec(pkt, key, cache) == Err::<MessageV, ProtocolError>(
                ProtocolError::DecodeTooLarge,
            ),
        forall|key: Seq<u8>| #[trigger] cache_after_spec(pkt, key, cache) == cache,
{
}

} // verus!
