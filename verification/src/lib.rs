//! A relay between a host's length-prefixed stdio framing and a local duplex
//! transport.
//!
//! The library holds the rules of the relay: the frame codec, the decisions
//! taken on the outcome of each transport call, the rendering of diagnostic
//! log entries, and the state of the pipeline that hands payloads from one
//! stage to the next. The blocking reads and writes themselves are the
//! caller's.

pub mod codec;
pub mod endpoint;
pub mod journal;
pub mod transport;
pub mod bridge;
