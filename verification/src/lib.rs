//! A privacy-preserving, eligibility-gated election library.
//!
//! An off-chain verification service checks that a voter's identity
//! statement has the right shape, that the voter's on-chain credential
//! matches the submitted one, and (through an opaque zero-knowledge
//! primitive) that the proof holds; it then issues a signed attestation
//! binding the voter's address to a country code.  An on-chain state
//! machine accepts a vote only together with a valid attestation, enforces
//! the voting deadline, and lets every account change its ballot until
//! that deadline.

#![verifier::loop_isolation(false)]

pub mod base;
pub mod contract;
pub mod crypto;
pub mod message;
pub mod statement;
pub mod service;
