//! Outbound side of a peer-to-peer request/response protocol.
//!
//! A request names the wire protocols it can be sent under, says how many
//! responses it expects and how a stream of responses ends, and is sent by a
//! small state machine that writes one frame, closes the write half of the
//! stream and only then hands the stream back for reading.

pub mod methods;
pub mod outbound;
pub mod protocol;
pub mod text;
pub mod upgrade;
