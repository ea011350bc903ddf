//! Core logic of a two-party off-grid text messenger: authenticated packet
//! framing over a sub-GHz radio, a power-loss-safe configuration log that
//! supplies the symmetric key, and the mailbox/signal fabric through which the
//! radio, the short-range wireless gateway, the buttons and the display
//! cooperate across two execution contexts.

pub mod codec;
pub mod fabric;
pub mod gateway;
pub mod link;
pub mod station;
pub mod store;
pub mod utils;
