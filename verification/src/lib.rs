//! Secure-session orchestration for a group chat protected by the MLS
//! group-key-agreement protocol.
//!
//! The crate turns raw, delimiter-framed network frames into protocol
//! operations — membership changes, key rotation, message encryption and
//! decryption — and models the network hub that moves frames between
//! participants with ordering and backpressure guarantees. The cryptographic
//! primitives come from the `openmls` crates and are consumed as an opaque
//! capability behind a small trusted boundary; everything around them is
//! verified against its contracts.

pub mod client;
pub mod controller;
pub mod errors;
pub mod framing;
pub mod group;
pub mod hub;
pub mod mls;
pub mod user;
pub mod view;
