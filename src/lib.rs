//! Kookie: a local-first, encrypted secret manager.
//!
//! The library holds the verified core: key derivation, authenticated
//! encryption of the vault payload, the vault's locked and unlocked states,
//! the secret collection with its lookup rules, and the session cache that
//! keeps a derived key across invocations for a limited time.

pub mod cipher;
pub mod commands;
pub mod encoding;
pub mod ids;
pub mod kdf;
mod random;
pub mod secrets;
pub mod session;
pub mod storage;
pub mod text;
pub mod vault;
