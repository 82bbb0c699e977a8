//! Capability traits for pluggable signing and verification of package data.
//!
//! Hash algorithms are fixed by the package format and are not part of this
//! crate; it only describes what it means to sign or verify under a given
//! algorithm family.

pub mod algorithm;
pub mod error;
pub mod key;
pub mod traits;

pub use algorithm::{Algorithm, RSA};
pub use error::CryptoError;
pub use key::{KeyType, Public, Secret};
pub use traits::{sign_to_bytes, SignatureBytes, Signing, Verifying};
