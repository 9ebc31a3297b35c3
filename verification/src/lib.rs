//! Verified core of the Secret Service daemon: where the login secret comes
//! from at start-up, and the YubiKey scheme that wraps the keyring's master key.
//!
//! The master key is a random 32-byte value. It is encrypted under a key derived
//! from a P-256 agreement between a fresh ephemeral key and the key held in a
//! YubiKey PIV slot, so only the card that wrapped it can recover it. Everything
//! here is a function on plain values: the program around the library reads and
//! writes files, talks to the card and the session bus, and hands back what it
//! saw.

pub mod crypto;
pub mod device;
pub mod error;
pub mod master_key;
pub mod paths;
pub mod save;
pub mod startup;
pub mod text;
pub mod wrapped_key;
