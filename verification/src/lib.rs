//! Core of an HTTP request-capture service: every incoming request,
//! whatever its method or path, is captured in full (method, target,
//! headers, body), given a fresh identifier, assembled into an
//! immutable record, and handed to a persistence collaborator; the
//! client receives a fixed acknowledgement on success and a generic
//! server error on any internal failure.
//!
//! The surrounding process owns the listening socket, the real body
//! stream and the storage engine; this crate holds the decisions:
//! what a record contains, when the store call is made, and which
//! response each outcome earns.
//!
//! The pipeline itself puts no cap on body size and no timeout on the
//! drain: faithful capture of arbitrary bodies is the point. A
//! deployment that wants a bound enforces it in the layer that owns
//! the stream, by abandoning the drain and reporting the transport
//! failure instead of a buffered body.

pub mod ident;
pub mod laws;
pub mod pipeline;
pub mod record;
pub mod response;
