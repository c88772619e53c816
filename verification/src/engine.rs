//! Trusted boundary around the snow Noise engine.
//!
//! Everything cryptographic is done by snow; each function here wraps one
//! call into it (or, for the builders, one construction chain) and states
//! only what snow's own source shows of every outcome. The engine states
//! are opaque: nothing is claimed about ciphertext or plaintext contents.
//! The one named result, [`crate::noise::kk_msg1_read`], is the verdict and
//! payload of reading the first handshake message on a fresh responder
//! state, which draws no randomness and so is a function of the three byte
//! strings alone.

use vstd::prelude::*;

use crate::noise::{kk_msg1_read, KKChannel, KKHandshakeActTwo};

verus! {

#[verifier::external_type_specification]
#[verifier::external_body]
pub struct ExHandshakeState(snow::HandshakeState);

#[verifier::external_type_specification]
#[verifier::external_body]
pub struct ExTransportState(snow::TransportState);

#[verifier::external_type_specification]
#[verifier::external_body]
pub struct ExSnowError(snow::Error);

/// Relies on snow::Builder::build_initiator (with local_private_key and
/// remote_public_key): a fresh initiator handshake state for the KK pattern
/// over Curve25519, ChaCha20-Poly1305 and SHA-256, bound to the given keys.
#[verifier::external_body]
pub(crate) fn build_initiator_state(
    my_privkey: &[u8; 32],
    their_pubkey: &[u8; 32],
) -> (r: Result<snow::HandshakeState, snow::Error>)
{
    let params = match "Noise_KK_25519_ChaChaPoly_SHA256".parse() {
        Ok(p) => p,
        Err(e) => return Err(e),
    };
    snow::Builder::new(params)
        .local_private_key(my_privkey)?
        .remote_public_key(their_pubkey)?
        .build_initiator()
}

/// Relies on snow::Builder::build_responder and
/// snow::HandshakeState::read_message: reading the first KK message on a
/// fresh responder state consumes no randomness, so its verdict and its
/// decrypted payload are a function of the secret key, the candidate key
/// and the message bytes alone — the function named `kk_msg1_read`. For
/// this suite and 32-byte keys the build itself cannot fail (the builder
/// only resolves fixed primitives and stores the keys), so every `Err` is
/// the read's verdict.
#[verifier::external_body]
pub(crate) fn responder_read_msg1(
    my_privkey: &[u8; 32],
    their_pubkey: &[u8; 32],
    msg: &[u8],
) -> (r: Result<(snow::HandshakeState, Vec<u8>), snow::Error>)
    ensures
        r matches Ok((st, payload))
            ==> kk_msg1_read(my_privkey@, their_pubkey@, msg@) == Some(payload@),
        r is Err ==> kk_msg1_read(my_privkey@, their_pubkey@, msg@) is None,
{
    let params = match "Noise_KK_25519_ChaChaPoly_SHA256".parse() {
        Ok(p) => p,
        Err(e) => return Err(e),
    };
    let mut state = snow::Builder::new(params)
        .local_private_key(my_privkey)?
        .remote_public_key(their_pubkey)?
        .build_responder()?;
    let mut payload = vec![0u8; msg.len()];
    let n = state.read_message(msg, payload.as_mut_slice())?;
    payload.truncate(n);
    Ok((state, payload))
}

/// Relies on snow::HandshakeState::write_message: writes the next handshake
/// message for `payload` into the front of `msg` and says how many bytes it
/// wrote. For the states this crate builds (the KK pattern, whose messages
/// carry no encrypted static key) every write is size-checked before it
/// happens, so a short buffer is an error, never an overrun.
#[verifier::external_body]
pub(crate) fn handshake_write_message(
    state: &mut snow::HandshakeState,
    payload: &[u8],
    msg: &mut Vec<u8>,
) -> (r: Result<usize, snow::Error>)
    ensures
        final(msg)@.len() == old(msg)@.len(),
        r matches Ok(n) ==> n <= final(msg)@.len(),
{
    state.write_message(payload, msg.as_mut_slice())
}

/// Relies on snow::HandshakeState::read_message: verifies and decrypts the
/// next handshake message, writing its payload into the front of `payload`
/// and saying how long the payload is; on any failure the handshake state is
/// rolled back to its checkpoint and nothing is vouched for the buffer.
#[verifier::external_body]
pub(crate) fn handshake_read_message(
    state: &mut snow::HandshakeState,
    msg: &[u8],
    payload: &mut Vec<u8>,
) -> (r: Result<usize, snow::Error>)
    ensures
        final(payload)@.len() == old(payload)@.len(),
        r matches Ok(n) ==> n <= final(payload)@.len(),
{
    state.read_message(msg, payload.as_mut_slice())
}

/// Relies on snow::HandshakeState::into_transport_mode: it succeeds exactly
/// when the handshake has run to completion, and an act two always holds a
/// completed handshake — the KK pattern has exactly two messages, and both
/// have been written or read before an act two can be constructed. The
/// transport state starts with both directions' nonce counters at zero.
#[verifier::external_body]
pub(crate) fn transport_mode_of(act: KKHandshakeActTwo) -> (r: snow::TransportState)
{
    act.state
        .into_transport_mode()
        .expect("an act two always holds a completed handshake")
}

/// Relies on snow::TransportState::write_message: AEAD-encrypts `payload`
/// into the front of `out`, appending a 16-byte MAC, and advances the
/// sending nonce, which the channel's ghost counter mirrors. It fails only
/// on an oversize payload, a short buffer or an exhausted nonce counter, all
/// checked before anything is written, so under those three bounds it
/// succeeds and wrote exactly `payload.len() + 16` bytes.
#[verifier::external_body]
pub(crate) fn channel_write_message(
    ch: &mut KKChannel,
    payload: &[u8],
    out: &mut Vec<u8>,
) -> (r: Result<usize, snow::Error>)
    ensures
        final(out)@.len() == old(out)@.len(),
        final(ch).remote_static_spec() == old(ch).remote_static_spec(),
        final(ch).recv_nonces_spec() == old(ch).recv_nonces_spec(),
        r matches Ok(n) ==> n == payload@.len() + 16
            && n <= final(out)@.len()
            && final(ch).sent_nonces_spec() == old(ch).sent_nonces_spec() + 1,
        r is Err ==> *final(ch) == *old(ch),
        old(ch).sent_nonces_spec() < u64::MAX
            && payload@.len() + 16 <= old(out)@.len()
            && payload@.len() + 16 <= 65535
            ==> r is Ok,
{
    ch.transport_state.write_message(payload, out.as_mut_slice())
}

/// Relies on snow::TransportState::read_message: verifies the trailing
/// 16-byte MAC of `msg`, writes the plaintext into the front of `out` and
/// advances the receiving nonce, which the channel's ghost counter mirrors;
/// on success the plaintext is exactly `msg.len() - 16` bytes, and on any
/// failure the channel is left as it was — a failed MAC consumes no nonce.
#[verifier::external_body]
pub(crate) fn channel_read_message(
    ch: &mut KKChannel,
    msg: &[u8],
    out: &mut Vec<u8>,
) -> (r: Result<usize, snow::Error>)
    ensures
        final(out)@.len() == old(out)@.len(),
        final(ch).remote_static_spec() == old(ch).remote_static_spec(),
        final(ch).sent_nonces_spec() == old(ch).sent_nonces_spec(),
        r matches Ok(n) ==> msg@.len() >= 16
            && n == msg@.len() - 16
            && n <= final(out)@.len()
            && final(ch).recv_nonces_spec() == old(ch).recv_nonces_spec() + 1,
        r is Err ==> *final(ch) == *old(ch),
{
    ch.transport_state.read_message(msg, out.as_mut_slice())
}

} // verus!
