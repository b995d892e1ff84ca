//! The decision core of a single-endpoint gateway in front of a
//! generative-language HTTP API.
//!
//! A request arrives in one of two shapes. The gateway tells them apart,
//! rewrites the message-list shape into the content-list shape that the
//! upstream service understands, addresses the upstream call, and turns
//! whatever comes back into the answer for the caller. Everything here is
//! free of I/O: the embedding server decodes bodies, talks to the network and
//! hands plain values in and out.

pub mod classify;
pub mod error;
pub mod forward;
pub mod gateway;
pub mod relay;
pub mod schema;
