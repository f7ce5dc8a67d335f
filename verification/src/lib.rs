//! Core engine of a secure, decentralized messaging client that uses email
//! transport as its network layer and runs an opt-in, end-to-end-encrypted,
//! verified-contact protocol ("Secure-Join") on top of it.
//!
//! The crate verifies the two subsystems that carry that protocol:
//!
//! * the Secure-Join handshake state machine (inviter and joiner side),
//!   including the QR invitation codec and the trust update it performs, and
//! * the background scheduler that drives the connection loops, with its
//!   two-phase shutdown and non-blocking interrupt channels.
//!
//! Network I/O, persistent storage, MIME parsing and cryptographic
//! primitives are external collaborators: the crate models the data it
//! needs from them as plain values and states its contracts over those.

pub mod chat;
pub mod contact;
pub mod context;
pub mod events;
pub mod message;
pub mod mimeparser;
pub mod peerstate;
pub mod qr;
pub mod scheduler;
pub mod securejoin;
pub mod token;
