//! Client-side implementation of a binary request/response control protocol
//! for driving a remote quantum-processing node over one persistent stream.
//!
//! The crate provides the wire codec for the four fixed-width, big-endian
//! header shapes, a command builder that assembles well-formed requests, an
//! error classifier for server-signalled error codes and response-type
//! mismatches, and a client session that sends exactly one request per call
//! and blocks for the matching reply on an unmultiplexed byte stream.

pub mod builder;
pub mod codec;
pub mod error;
pub mod hdr;
pub mod session;
