//! Translation between the two native text encodings of a 32-byte Ed25519
//! account key: the checksummed, version-prefixed Helium form and the plain
//! Solana form. Both are base58 texts over the same underlying key material.

pub mod api;
pub mod base58;
pub mod codec;
pub mod digest;
pub mod supply;
