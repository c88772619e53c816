//! The error kinds a handshake or channel operation can surface.

use vstd::prelude::*;

verus! {

/// Why a handshake or channel operation failed. Callers use the kind to
/// decide whether to reconnect (a crypto or stream problem) or to abort
/// (a protocol mismatch or an unknown peer).
#[derive(Clone, Copy, Debug, PartialEq, Eq, Structural)]
pub enum NoiseError {
    /// The cryptographic engine rejected a handshake or transport message:
    /// bad key material, a corrupted ciphertext, or a MAC that does not verify.
    Crypto,
    /// A plaintext longer than the protocol's maximum was handed to encryption.
    InvalidPlaintext,
    /// A ciphertext shorter than a MAC, or longer than a wire message may be,
    /// was handed to decryption.
    InvalidCiphertext,
    /// The first handshake message decrypted cleanly but its payload was not
    /// the protocol tag: a version or protocol incompatibility, not a wrong key.
    BadHandshake,
    /// No candidate public key could validate the first handshake message.
    MissingStaticKey,
}

} // verus!
