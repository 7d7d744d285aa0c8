//! Peer matchmaking: a rendezvous server that lets waiting peers discover each
//! other, and a client-side handshake state machine that confirms a match with
//! one of them over an unreliable transport.
//!
//! Everything here is a pure transition on plain values: the caller owns the
//! sockets, performs the sends that each transition hands back, and feeds
//! received messages in.
pub mod address;
pub mod client;
pub mod inputs;
pub mod peer;
pub mod server;
pub mod shared;
pub mod table;
pub mod wire;
