//! Authenticated, encrypted, ordered byte-stream channels between machines
//! that already know each other's long-term Curve25519 public keys.
//!
//! The handshake follows the Noise KK pattern: two fixed-size messages give
//! mutual authentication, after which a [`noise::KKChannel`] encrypts and
//! frames application payloads. The raw stream handling lives outside this
//! library; [`transport`] holds the retry policy it must follow.

mod engine;
pub mod error;
pub mod noise;
pub mod transport;
