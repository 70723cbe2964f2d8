//! A typed message router for nodes that speak a line-delimited JSON protocol.
//!
//! A node reads one JSON envelope per line, picks a handler by the envelope's
//! type tag, and answers with one JSON envelope per line. Handlers are written
//! against typed payloads; the router decodes the request payload, calls the
//! handler, encodes its answer and builds the reply envelope.
//!
//! Nothing here reads or writes a stream: [`Router::handle_line`] turns one
//! line of input into one line of output, and the caller owns the streams.

pub mod adapter;
pub mod codec;
pub mod error;
pub mod json;
pub mod message;
pub mod payload;
pub mod router;
pub mod tag;

pub use adapter::respond;
pub use codec::{decode_line, encode_line, envelope_from_json, envelope_to_json};
pub use error::{EnvelopeError, RouterError};
pub use json::JsonObject;
pub use message::{reply_to, Body, Message, RawBody, RawMessage};
pub use payload::{fields_of, to_json_map, Payload};
pub use router::{Route, Router, Served};
pub use tag::tag_of;
