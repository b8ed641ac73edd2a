//! Local-network discovery for a playback device.
//!
//! The library announces the device through a pluggable zeroconf backend and
//! runs a pairing handshake that hands the device the credentials needed to
//! join a session: a Diffie-Hellman-style key agreement, keyed-hash key
//! derivation, and authenticated decryption of the credential blob, together
//! with the backend registry, the per-backend registration state machine, and
//! the merged event stream that delivers the results.

pub mod cec;
pub mod codec;
pub mod config;
pub mod crypto;
pub mod ctr;
pub mod dh;
pub mod error;
pub mod events;
pub mod file_id;
pub mod handshake;
pub mod lifecycle;
pub mod params;
pub mod registry;
pub mod rendezvous;
