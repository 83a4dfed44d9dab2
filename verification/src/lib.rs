//! A tamper-evident encrypted blob log.
//!
//! Blobs are encrypted client-side with AES-GCM under a key derived from a
//! password, stored server-side in an append-only store, and committed as
//! leaves of a Merkle tree. A retrieval returns the envelope together with an
//! inclusion proof, the tree root and the tree length, so the client can check
//! that the store has not been altered before it decrypts.

pub mod aead;
pub mod client;
pub mod coordinator;
pub mod envelope;
pub mod errors;
pub mod kdf;
pub mod merkle;
pub mod messages;

pub use aead::{aead_round_trip, decrypt, encrypt};
pub use client::{process_retrieval, store_and_fetch, verify_retrieval};
pub use coordinator::{append_alignment, index, retrieval_verifies, Coordinator};
pub use envelope::{hash_encfile, EncFile};
pub use errors::LogError;
pub use kdf::derive_key;
pub use messages::{RetrieveResponse, RetrieveResponseEnum, UploadResponse};
