//! The transport-free core of a small time-slot service.
//!
//! The service keeps timestamped records in one embedded store and answers
//! requests with a JSON document that is streamed fragment by fragment. This
//! crate holds every decision of that service and none of its input or output:
//! the caller owns the socket and the store connection, performs the writes and
//! queries it is told to perform, and reports back how they went.

pub mod adapter;
pub mod encoder;
pub mod generator;
pub mod handler;
pub mod record;
pub mod store;
