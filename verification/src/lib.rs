//! Core of a remote human-interface-device bridge: key-to-bit lookup,
//! bit-packed input state registers, an event classifier, the wire-protocol
//! encoder, and the transport decision logic. The surrounding program owns
//! the event source and the socket; everything here is pure and verified.

pub mod client;
pub mod events;
pub mod protocol;
pub mod keymap;
pub mod state;
pub mod text;
