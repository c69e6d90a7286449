//! An authenticated identity registry.
//!
//! The registry binds opaque 32-byte identifiers to self-describing identity
//! records. A write must carry an Ed25519 signature, from the signer that
//! becomes the record's owner, over a canonical message that pins the
//! operation, the deployment and the exact arguments; replay is prevented by
//! a per-signer monotonic nonce. Reads are public, and a separate admin slot
//! can be set exactly once.

pub mod auth;
pub mod bytes;
pub mod codec;
pub mod errors;
pub mod laws;
pub mod registry;
pub mod storage;
