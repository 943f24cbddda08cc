//! Client library for a small key-value store spoken to over one stream
//! connection with a fixed-header binary protocol.
//!
//! `wire` turns operations into request frames and response frames into
//! results; `session` holds the request/response discipline of one
//! connection; `drain` gathers bytes that arrive unasked; `error` is the
//! error taxonomy that callers see.

pub mod drain;
pub mod error;
pub mod session;
pub mod wire;

pub use drain::{Drain, ReadEvent};
pub use error::ClientError;
pub use session::{outcome, Phase, Session};
pub use wire::{decode, encode, parse_request, DecodedResponse, Operation, ProtocolError};
