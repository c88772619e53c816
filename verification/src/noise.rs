//! The Noise KK handshake and the per-message encryption channel.
//!
//! Two fixed-size wire messages complete a mutually authenticated handshake
//! between parties that already hold each other's static public keys; the
//! completed handshake yields a [`KKChannel`] that encrypts each payload as
//! an 18-byte header (an encrypted two-byte big-endian length) followed by
//! an encrypted body, so a reader can size its next read incrementally.

use vstd::prelude::*;

use crate::engine;
use crate::error::NoiseError;

verus! {

/// The size of a key, either public or secret, on Curve25519.
pub const KEY_SIZE: usize = 32;
/// Size of the Poly1305 MAC appended by every encryption.
pub const MAC_SIZE: usize = 16;
/// Max message size specified by the Noise protocol framework.
pub const NOISE_MESSAGE_MAX_SIZE: usize = 65535;
/// Two bytes are used for the message length prefix.
pub const LENGTH_PREFIX_SIZE: usize = 2;
/// Message header length: the encrypted length prefix plus its MAC.
pub const NOISE_MESSAGE_HEADER_SIZE: usize = LENGTH_PREFIX_SIZE + MAC_SIZE;
/// Maximum size of a message before encryption.
pub const NOISE_PLAINTEXT_MAX_SIZE: usize =
    NOISE_MESSAGE_MAX_SIZE - NOISE_MESSAGE_HEADER_SIZE - MAC_SIZE;
/// Byte length of the protocol tag carried by the first handshake message.
pub const HANDSHAKE_MESSAGE_SIZE: usize = 19;
/// First handshake message: ephemeral key, then the encrypted tag and its MAC.
pub const KK_MSG_1_SIZE: usize = KEY_SIZE + HANDSHAKE_MESSAGE_SIZE + MAC_SIZE;
/// Second handshake message: ephemeral key and a MAC over an empty payload.
pub const KK_MSG_2_SIZE: usize = KEY_SIZE + MAC_SIZE;

/// The protocol tag sent for versioning and identification during the
/// handshake: the bytes of `practical_revault_0`.
pub open spec fn handshake_tag() -> Seq<u8> {
    seq![
        112u8, 114u8, 97u8, 99u8, 116u8, 105u8, 99u8, 97u8, 108u8, 95u8,
        114u8, 101u8, 118u8, 97u8, 117u8, 108u8, 116u8, 95u8, 48u8,
    ]
}

/// The protocol tag as bytes, for use as the first handshake payload.
pub fn handshake_message() -> (r: Vec<u8>)
    ensures
        r@ == handshake_tag(),
        r@.len() == HANDSHAKE_MESSAGE_SIZE,
{
    let mut v: Vec<u8> = Vec::new();
    v.push(112u8); // p
    v.push(114u8); // r
    v.push(97u8); // a
    v.push(99u8); // c
    v.push(116u8); // t
    v.push(105u8); // i
    v.push(99u8); // c
    v.push(97u8); // a
    v.push(108u8); // l
    v.push(95u8); // _
    v.push(114u8); // r
    v.push(101u8); // e
    v.push(118u8); // v
    v.push(97u8); // a
    v.push(117u8); // u
    v.push(108u8); // l
    v.push(116u8); // t
    v.push(95u8); // _
    v.push(48u8); // 0
    proof {
        assert(v@ =~= handshake_tag());
    }
    v
}

/// The static public key of a peer: a plain Curve25519 point.
#[derive(Clone, Copy, Debug, PartialEq, Eq)]
pub struct PublicKey(pub [u8; KEY_SIZE]);

/// The static secret key of this machine: a plain Curve25519 scalar.
#[derive(Clone, Copy)]
pub struct SecretKey(pub [u8; KEY_SIZE]);

/// What the engine makes of the first handshake message under one candidate
/// key: `None` when the message does not authenticate under that key,
/// otherwise the decrypted payload. Reading the first KK message on a fresh
/// responder state draws no randomness, so this is a function of the secret
/// key, the candidate public key and the message bytes alone; what it is on
/// given values only the engine knows.
pub uninterp spec fn kk_msg1_read(sk: Seq<u8>, pk: Seq<u8>, msg: Seq<u8>) -> Option<Seq<u8>>;

/// Whether the first handshake message authenticates under one candidate key.
pub open spec fn msg1_authenticates(sk: SecretKey, pk: PublicKey, msg: Seq<u8>) -> bool {
    kk_msg1_read(sk.0@, pk.0@, msg) is Some
}

/// Whether the first handshake message authenticates under one candidate key
/// and its decrypted payload is exactly the protocol tag.
pub open spec fn msg1_carries_tag(sk: SecretKey, pk: PublicKey, msg: Seq<u8>) -> bool {
    kk_msg1_read(sk.0@, pk.0@, msg) == Some(handshake_tag())
}

/// Whether candidate `i` is the first in the list under which the first
/// handshake message authenticates.
pub open spec fn first_authenticating(
    sk: SecretKey,
    keys: Seq<PublicKey>,
    msg: Seq<u8>,
    i: int,
) -> bool {
    &&& 0 <= i < keys.len()
    &&& msg1_authenticates(sk, keys[i], msg)
    &&& forall|j: int| 0 <= j < i ==> !msg1_authenticates(sk, keys[j], msg)
}

/// For one message and one candidate list there is at most one first
/// authenticating candidate: the key a successful responder handshake binds
/// is determined by its inputs.
pub proof fn lemma_first_authenticating_unique(
    sk: SecretKey,
    keys: Seq<PublicKey>,
    msg: Seq<u8>,
    i: int,
    j: int,
)
    requires
        first_authenticating(sk, keys, msg, i),
        first_authenticating(sk, keys, msg, j),
    ensures
        i == j,
{
    if i < j {
        assert(!msg1_authenticates(sk, keys[i], msg));
    } else if j < i {
        assert(!msg1_authenticates(sk, keys[j], msg));
    }
}

/// The value a two-byte big-endian length prefix encodes.
pub open spec fn be16(hi: u8, lo: u8) -> u16 {
    (hi * 256 + lo) as u16
}

/// The high byte of a length's big-endian prefix.
pub open spec fn be16_hi(x: u16) -> u8 {
    (x / 256) as u8
}

/// The low byte of a length's big-endian prefix.
pub open spec fn be16_lo(x: u16) -> u8 {
    (x % 256) as u8
}

/// A two-byte big-endian prefix carries its value round trip: decoding the
/// two bytes a value encodes to gives the value back.
pub proof fn lemma_be16_roundtrip(x: u16)
    ensures
        be16(be16_hi(x), be16_lo(x)) == x,
{
}

/// Split a length into the two bytes of its big-endian prefix.
pub fn be16_encode(x: u16) -> (r: (u8, u8))
    ensures
        r.0 == be16_hi(x),
        r.1 == be16_lo(x),
        be16(r.0, r.1) == x,
{
    let hi: u8 = (x / 256) as u8;
    let lo: u8 = (x % 256) as u8;
    (hi, lo)
}

/// Read a two-byte big-endian length prefix.
pub fn be16_decode(hi: u8, lo: u8) -> (r: u16)
    ensures
        r == be16(hi, lo),
{
    (hi as u16) * 256 + (lo as u16)
}

/// A two-byte big-endian prefix encodes its value uniquely: equal values
/// come only from equal byte pairs.
pub proof fn lemma_be16_injective(h1: u8, l1: u8, h2: u8, l2: u8)
    ensures
        be16(h1, l1) == be16(h2, l2) ==> h1 == h2 && l1 == l2,
{
    assert(h1 * 256 + l1 == h2 * 256 + l2 ==> h1 == h2 && l1 == l2) by (nonlinear_arith);
}

/// A zeroed buffer of the given length.
fn zero_vec(n: usize) -> (r: Vec<u8>)
    ensures
        r@.len() == n,
{
    let mut v: Vec<u8> = Vec::new();
    let mut i: usize = 0;
    while i < n
        invariant
            i <= n,
            v@.len() == i,
        decreases n - i,
    {
        v.push(0u8);
        i += 1;
    }
    v
}

/// Whether `buf` is exactly the protocol tag.
fn is_handshake_tag(buf: &Vec<u8>) -> (r: bool)
    ensures
        r <==> buf@ == handshake_tag(),
{
    if buf.len() != HANDSHAKE_MESSAGE_SIZE {
        return false;
    }
    let tag = handshake_message();
    let mut i: usize = 0;
    while i < HANDSHAKE_MESSAGE_SIZE
        invariant
            i <= HANDSHAKE_MESSAGE_SIZE,
            buf@.len() == HANDSHAKE_MESSAGE_SIZE,
            tag@ == handshake_tag(),
            forall|j: int| 0 <= j < i ==> buf@[j] == handshake_tag()[j],
        decreases HANDSHAKE_MESSAGE_SIZE - i,
    {
        if buf[i] != tag[i] {
            return false;
        }
        i += 1;
    }
    proof {
        assert(buf@ =~= handshake_tag());
    }
    true
}

/// First round of the KK handshake. Holds the live engine state and the
/// static public key it was built against.
#[derive(Debug)]
pub struct KKHandshakeActOne {
    /// The engine state after the first message was written or read.
    pub(crate) state: snow::HandshakeState,
    /// The peer static public key this handshake is bound to.
    pub(crate) remote_pub: PublicKey,
}

impl KKHandshakeActOne {
    /// The peer static public key this handshake is bound to.
    pub closed spec fn remote_pub_spec(&self) -> PublicKey {
        self.remote_pub
    }
}

/// Message sent during the first round of the KK handshake (e, es, ss).
pub struct KKMessageActOne(pub Vec<u8>);

impl KKMessageActOne {
    /// A first-round message is exactly [`KK_MSG_1_SIZE`] bytes on the wire.
    pub open spec fn wf(&self) -> bool {
        self.0@.len() == KK_MSG_1_SIZE
    }
}

/// Final round of the KK handshake. Only the two act-one transitions below
/// construct one, and both leave the engine with the whole two-message
/// pattern consumed: an act two always holds a completed handshake.
#[derive(Debug)]
pub struct KKHandshakeActTwo {
    /// The engine state inherited from act one.
    pub(crate) state: snow::HandshakeState,
    /// The peer static public key this handshake is bound to.
    pub(crate) remote_pub: PublicKey,
}

impl KKHandshakeActTwo {
    /// The peer static public key this handshake is bound to.
    pub closed spec fn remote_pub_spec(&self) -> PublicKey {
        self.remote_pub
    }
}

/// Message sent during the final round of the KK handshake (e, ee, se).
pub struct KKMessageActTwo(pub Vec<u8>);

impl KKMessageActTwo {
    /// A second-round message is exactly [`KK_MSG_2_SIZE`] bytes on the wire.
    pub open spec fn wf(&self) -> bool {
        self.0@.len() == KK_MSG_2_SIZE
    }
}

impl KKHandshakeActOne {
    /// Start the handshake as an initiator: bind the engine to our secret
    /// key and the peer's declared public key, and write the first message,
    /// whose payload is the protocol tag. The write draws the fresh
    /// ephemeral key from the system's randomness, which is the one thing
    /// that can fail here.
    pub fn initiator(
        my_privkey: &SecretKey,
        their_pubkey: &PublicKey,
    ) -> (r: Result<(KKHandshakeActOne, KKMessageActOne), NoiseError>)
        ensures
            r matches Ok((act, msg)) ==> act.remote_pub_spec() == *their_pubkey && msg.wf(),
            r matches Err(e) ==> e == NoiseError::Crypto,
    {
        let mut state = match engine::build_initiator_state(&my_privkey.0, &their_pubkey.0) {
            Ok(s) => s,
            Err(_) => return Err(NoiseError::Crypto),
        };

        let tag = handshake_message();
        let mut msg = zero_vec(KK_MSG_1_SIZE);
        match engine::handshake_write_message(&mut state, tag.as_slice(), &mut msg) {
            Ok(_) => {}
            Err(_) => return Err(NoiseError::Crypto),
        }

        Ok((
            KKHandshakeActOne { state, remote_pub: *their_pubkey },
            KKMessageActOne(msg),
        ))
    }

    /// Start the handshake as a responder. The responder does not know which
    /// of its known correspondents is calling, so it tries the first message
    /// against each candidate public key in order; the first key under which
    /// the message authenticates wins and is bound as the peer. A message
    /// that authenticates but does not carry the protocol tag fails at once
    /// with [`NoiseError::BadHandshake`]: the key was right, the protocol
    /// was not. A message that authenticates under no candidate is from an
    /// unknown caller: [`NoiseError::MissingStaticKey`].
    pub fn responder(
        my_privkey: &SecretKey,
        their_possible_pubkeys: &[PublicKey],
        message: &KKMessageActOne,
    ) -> (r: Result<KKHandshakeActOne, NoiseError>)
        requires
            message.wf(),
        ensures
            r matches Ok(act) ==> exists|i: int|
                first_authenticating(*my_privkey, their_possible_pubkeys@, message.0@, i)
                    && act.remote_pub_spec() == their_possible_pubkeys@[i]
                    && msg1_carries_tag(*my_privkey, their_possible_pubkeys@[i], message.0@),
            r == Err::<KKHandshakeActOne, NoiseError>(NoiseError::MissingStaticKey)
                <==> forall|i: int| 0 <= i < their_possible_pubkeys@.len()
                    ==> !msg1_authenticates(*my_privkey, their_possible_pubkeys@[i], message.0@),
            r == Err::<KKHandshakeActOne, NoiseError>(NoiseError::BadHandshake)
                <==> exists|i: int|
                    first_authenticating(*my_privkey, their_possible_pubkeys@, message.0@, i)
                        && !msg1_carries_tag(*my_privkey, their_possible_pubkeys@[i], message.0@),
            r matches Err(e) ==> e == NoiseError::MissingStaticKey
                || e == NoiseError::BadHandshake,
    {
        let ghost sk = *my_privkey;
        let ghost keys = their_possible_pubkeys@;
        let ghost m = message.0@;

        let n = their_possible_pubkeys.len();
        let mut i: usize = 0;
        while i < n
            invariant
                n == keys.len(),
                keys == their_possible_pubkeys@,
                sk == *my_privkey,
                m == message.0@,
                i <= n,
                forall|j: int| 0 <= j < i ==> !msg1_authenticates(sk, keys[j], m),
            decreases n - i,
        {
            let their_pubkey = &their_possible_pubkeys[i];
            match engine::responder_read_msg1(
                &my_privkey.0,
                &their_pubkey.0,
                message.0.as_slice(),
            ) {
                Ok((state, payload)) => {
                    proof {
                        assert(msg1_authenticates(sk, keys[i as int], m));
                        assert(first_authenticating(sk, keys, m, i as int));
                        assert forall|k: int| #[trigger] first_authenticating(sk, keys, m, k)
                            implies k == i as int by {
                            if k < i as int {
                                assert(!msg1_authenticates(sk, keys[k], m));
                            } else if k > i as int {
                                assert(!msg1_authenticates(sk, keys[i as int], m));
                            }
                        }
                    }
                    if is_handshake_tag(&payload) {
                        proof {
                            assert(msg1_carries_tag(sk, keys[i as int], m));
                        }
                        return Ok(KKHandshakeActOne { state, remote_pub: *their_pubkey });
                    }
                    proof {
                        assert(!msg1_carries_tag(sk, keys[i as int], m));
                    }
                    return Err(NoiseError::BadHandshake);
                }
                Err(_) => {
                    proof {
                        assert(!msg1_authenticates(sk, keys[i as int], m));
                    }
                }
            }
            i += 1;
        }

        Err(NoiseError::MissingStaticKey)
    }
}

impl KKHandshakeActTwo {
    /// Finish the handshake as an initiator: read and validate the second
    /// message. Its payload is empty and is discarded; a message that does
    /// not decrypt under the handshake's keys is a corrupted or malicious
    /// reply.
    pub fn initiator(
        handshake: KKHandshakeActOne,
        message: &KKMessageActTwo,
    ) -> (r: Result<KKHandshakeActTwo, NoiseError>)
        requires
            message.wf(),
        ensures
            r matches Ok(act) ==> act.remote_pub_spec() == handshake.remote_pub_spec(),
            r matches Err(e) ==> e == NoiseError::Crypto,
    {
        let mut state = handshake.state;
        let mut payload = zero_vec(KK_MSG_2_SIZE);
        match engine::handshake_read_message(&mut state, message.0.as_slice(), &mut payload) {
            Ok(_) => Ok(KKHandshakeActTwo { state, remote_pub: handshake.remote_pub }),
            Err(_) => Err(NoiseError::Crypto),
        }
    }

    /// Finish the handshake as a responder: write the second message, an
    /// empty payload under the handshake's keys. The write draws the fresh
    /// ephemeral key from the system's randomness, which is the one thing
    /// that can fail here.
    pub fn responder(
        handshake: KKHandshakeActOne,
    ) -> (r: Result<(KKHandshakeActTwo, KKMessageActTwo), NoiseError>)
        ensures
            r matches Ok((act, msg)) ==> act.remote_pub_spec() == handshake.remote_pub_spec()
                && msg.wf(),
            r matches Err(e) ==> e == NoiseError::Crypto,
    {
        let mut state = handshake.state;
        let empty: Vec<u8> = Vec::new();
        let mut msg = zero_vec(KK_MSG_2_SIZE);
        match engine::handshake_write_message(&mut state, empty.as_slice(), &mut msg) {
            Ok(_) => Ok((
                KKHandshakeActTwo { state, remote_pub: handshake.remote_pub },
                KKMessageActTwo(msg),
            )),
            Err(_) => Err(NoiseError::Crypto),
        }
    }
}

/// A ciphertext holding the encrypted length prefix of a message: two bytes
/// of big-endian length and their MAC.
#[derive(Clone, Debug)]
pub struct NoiseEncryptedHeader(pub Vec<u8>);

impl NoiseEncryptedHeader {
    /// A header is exactly [`NOISE_MESSAGE_HEADER_SIZE`] bytes on the wire.
    pub open spec fn wf(&self) -> bool {
        self.0@.len() == NOISE_MESSAGE_HEADER_SIZE
    }
}

/// A ciphertext holding a whole framed message, or, once the header has been
/// split off, the encrypted body alone.
#[derive(Clone, Debug)]
pub struct NoiseEncryptedMessage(pub Vec<u8>);

/// Size of the whole ciphertext framing a plaintext of the given size:
/// header, body and the body's MAC.
pub open spec fn encrypted_msg_size_spec(plaintext_size: nat) -> nat {
    (NOISE_MESSAGE_HEADER_SIZE + plaintext_size + MAC_SIZE) as nat
}

/// Size of the whole ciphertext framing a plaintext of the given size.
pub fn encrypted_msg_size(plaintext_size: usize) -> (r: usize)
    requires
        plaintext_size <= NOISE_PLAINTEXT_MAX_SIZE,
    ensures
        r == encrypted_msg_size_spec(plaintext_size as nat),
{
    NOISE_MESSAGE_HEADER_SIZE + plaintext_size + MAC_SIZE
}

/// The body length a message's header announces: the encrypted body is the
/// plaintext and its MAC, so the announced length already tells the reader
/// how many bytes to pull from the stream.
pub open spec fn announced_body_len(plaintext_size: nat) -> nat {
    (plaintext_size + MAC_SIZE) as nat
}

/// The framing round trip, below the cryptography. For every plaintext the
/// protocol allows: the length its header announces is exactly the length
/// of the encrypted body that follows the header; it fits the two-byte
/// prefix; the body passes the peer's size checks, so a framed message is
/// never rejected for its size; and stripping the body's MAC gives the
/// plaintext's length back.
pub proof fn lemma_header_announces_body(plaintext_size: nat)
    requires
        plaintext_size <= NOISE_PLAINTEXT_MAX_SIZE,
    ensures
        announced_body_len(plaintext_size)
            == encrypted_msg_size_spec(plaintext_size) - NOISE_MESSAGE_HEADER_SIZE,
        announced_body_len(plaintext_size) <= u16::MAX,
        MAC_SIZE <= announced_body_len(plaintext_size) <= NOISE_MESSAGE_MAX_SIZE,
        announced_body_len(plaintext_size) - MAC_SIZE == plaintext_size,
{
}

/// A KK Noise communication channel: the engine's transport-mode state, the
/// authenticated static key of the peer, and a ghost count of the nonces
/// each direction has consumed, mirroring the engine's two counters. Every
/// successful encryption or decryption consumes exactly one nonce of its
/// direction; the peer must consume them in the order they were produced,
/// or every later decryption fails.
pub struct KKChannel {
    /// The engine's symmetric transport-mode state.
    pub(crate) transport_state: snow::TransportState,
    /// The peer's static public key, bound during the handshake.
    pub(crate) remote_pub: PublicKey,
    /// How many sending nonces this side has consumed.
    pub(crate) sent_nonces: Ghost<nat>,
    /// How many receiving nonces this side has consumed.
    pub(crate) recv_nonces: Ghost<nat>,
}

impl KKChannel {
    /// The peer's static public key, bound during the handshake.
    pub closed spec fn remote_static_spec(&self) -> PublicKey {
        self.remote_pub
    }

    /// How many sending nonces this side has consumed.
    pub closed spec fn sent_nonces_spec(&self) -> nat {
        self.sent_nonces@
    }

    /// How many receiving nonces this side has consumed.
    pub closed spec fn recv_nonces_spec(&self) -> nat {
        self.recv_nonces@
    }

    /// Construct the channel from a completed handshake. An act two always
    /// holds a completed handshake, so this cannot fail; both directions'
    /// nonce counters start at zero.
    pub fn from_handshake(state: KKHandshakeActTwo) -> (r: Result<KKChannel, NoiseError>)
        ensures
            r is Ok,
            r matches Ok(ch) ==> ch.remote_static_spec() == state.remote_pub_spec()
                && ch.sent_nonces_spec() == 0
                && ch.recv_nonces_spec() == 0,
    {
        let remote_pub = state.remote_pub;
        let transport_state = engine::transport_mode_of(state);
        Ok(KKChannel {
            transport_state,
            remote_pub,
            sent_nonces: Ghost(0),
            recv_nonces: Ghost(0),
        })
    }

    /// Encrypt a message no longer than [`NOISE_PLAINTEXT_MAX_SIZE`].
    ///
    /// The plaintext is prefixed by a two-byte big-endian length field equal
    /// to the encrypted body's length (the plaintext's and its MAC's), and
    /// the prefix is encrypted on its own into an 18-byte header, so the
    /// peer can read incrementally. The header is encrypted first and the
    /// body second; each consumes one sending nonce, and the peer must
    /// decrypt them in that same order. For an in-range plaintext the only
    /// failure left to the engine is an exhausted sending nonce counter:
    /// under that budget, success is guaranteed.
    pub fn encrypt_message(&mut self, message: &[u8]) -> (r: Result<NoiseEncryptedMessage, NoiseError>)
        ensures
            final(self).remote_static_spec() == old(self).remote_static_spec(),
            final(self).recv_nonces_spec() == old(self).recv_nonces_spec(),
            message@.len() > NOISE_PLAINTEXT_MAX_SIZE
                ==> r == Err::<NoiseEncryptedMessage, NoiseError>(NoiseError::InvalidPlaintext)
                    && *final(self) == *old(self),
            r matches Ok(em) ==> message@.len() <= NOISE_PLAINTEXT_MAX_SIZE
                && em.0@.len() == encrypted_msg_size_spec(message@.len())
                && em.0@.len() - NOISE_MESSAGE_HEADER_SIZE == announced_body_len(message@.len())
                && final(self).sent_nonces_spec() == old(self).sent_nonces_spec() + 2,
            r matches Err(e) ==> (e == NoiseError::InvalidPlaintext || e == NoiseError::Crypto)
                && final(self).sent_nonces_spec() <= old(self).sent_nonces_spec() + 1,
            message@.len() <= NOISE_PLAINTEXT_MAX_SIZE
                ==> !(r matches Err(e) && e == NoiseError::InvalidPlaintext),
            message@.len() <= NOISE_PLAINTEXT_MAX_SIZE
                && old(self).sent_nonces_spec() + 1 < u64::MAX
                ==> r is Ok,
    {
        if message.len() > NOISE_PLAINTEXT_MAX_SIZE {
            return Err(NoiseError::InvalidPlaintext);
        }

        // The length of the encrypted body the header announces; it fits
        // the two-byte prefix because the plaintext is within bounds.
        assert(MAC_SIZE + message@.len() <= u16::MAX);
        let message_len: u16 = (MAC_SIZE + message.len()) as u16;
        let (hi, lo) = be16_encode(message_len);
        let mut prefix: Vec<u8> = Vec::new();
        prefix.push(hi);
        prefix.push(lo);

        let mut header = zero_vec(NOISE_MESSAGE_HEADER_SIZE);
        match engine::channel_write_message(self, prefix.as_slice(), &mut header) {
            Ok(_) => {}
            Err(_) => return Err(NoiseError::Crypto),
        }

        let mut body = zero_vec(MAC_SIZE + message.len());
        match engine::channel_write_message(self, message, &mut body) {
            Ok(_) => {}
            Err(_) => return Err(NoiseError::Crypto),
        }

        let mut output = header;
        output.append(&mut body);
        Ok(NoiseEncryptedMessage(output))
    }

    /// Decrypt an 18-byte header: the length of the encrypted body that
    /// follows it, as the sender announced it. Consumes one receiving nonce
    /// on success; a header whose MAC does not verify leaves the channel as
    /// it was.
    pub fn decrypt_header(&mut self, header: &NoiseEncryptedHeader) -> (r: Result<u16, NoiseError>)
        requires
            header.wf(),
        ensures
            final(self).remote_static_spec() == old(self).remote_static_spec(),
            final(self).sent_nonces_spec() == old(self).sent_nonces_spec(),
            r matches Ok(_) ==> final(self).recv_nonces_spec() == old(self).recv_nonces_spec() + 1,
            r matches Err(e) ==> e == NoiseError::Crypto && *final(self) == *old(self),
    {
        let mut buf = zero_vec(NOISE_MESSAGE_HEADER_SIZE);
        match engine::channel_read_message(self, header.0.as_slice(), &mut buf) {
            Ok(_) => {}
            Err(_) => return Err(NoiseError::Crypto),
        }

        let hi = buf[0];
        let lo = buf[1];
        Ok(be16_decode(hi, lo))
    }

    /// Decrypt a message body, stripping its trailing MAC. The body must be
    /// the one announced by the last decrypted header, in the order the peer
    /// produced it. Consumes one receiving nonce on success; a rejected
    /// input or a failed MAC leaves the channel as it was.
    pub fn decrypt_message(&mut self, message: &NoiseEncryptedMessage) -> (r: Result<Vec<u8>, NoiseError>)
        ensures
            final(self).remote_static_spec() == old(self).remote_static_spec(),
            final(self).sent_nonces_spec() == old(self).sent_nonces_spec(),
            message.0@.len() < MAC_SIZE || message.0@.len() > NOISE_MESSAGE_MAX_SIZE
                ==> r == Err::<Vec<u8>, NoiseError>(NoiseError::InvalidCiphertext),
            MAC_SIZE <= message.0@.len() <= NOISE_MESSAGE_MAX_SIZE
                ==> !(r matches Err(e) && e == NoiseError::InvalidCiphertext),
            r matches Ok(plaintext) ==> MAC_SIZE <= message.0@.len() <= NOISE_MESSAGE_MAX_SIZE
                && plaintext@.len() == message.0@.len() - MAC_SIZE
                && final(self).recv_nonces_spec() == old(self).recv_nonces_spec() + 1,
            r matches Err(e) ==> (e == NoiseError::InvalidCiphertext || e == NoiseError::Crypto)
                && *final(self) == *old(self),
    {
        if message.0.len() > NOISE_MESSAGE_MAX_SIZE {
            return Err(NoiseError::InvalidCiphertext);
        }
        if message.0.len() < MAC_SIZE {
            return Err(NoiseError::InvalidCiphertext);
        }

        let mut plaintext = zero_vec(message.0.len());
        let n = match engine::channel_read_message(self, message.0.as_slice(), &mut plaintext) {
            Ok(n) => n,
            Err(_) => return Err(NoiseError::Crypto),
        };

        // The engine wrote the plaintext into the front of the buffer; what
        // follows it is the buffer's padding, the MAC's width of zeroes.
        plaintext.truncate(n);
        Ok(plaintext)
    }

    /// The static public key of the peer, bound during the handshake. A KK
    /// handshake cannot complete without it.
    pub fn remote_static(&self) -> (r: PublicKey)
        ensures
            r == self.remote_static_spec(),
    {
        self.remote_pub
    }
}

} // verus!
