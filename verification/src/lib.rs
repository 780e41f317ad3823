//! A JSON-RPC tool-invocation protocol endpoint: method routing over a
//! closed set (`initialize`, `tools/list`, `tools/call`), the
//! request/notification distinction, the two-tier error model (protocol
//! errors against tool-reported domain failures), and content negotiation
//! between plain JSON and single-event streaming framing.
//!
//! The library owns every decision and every byte of the wire format; the
//! host around it reads requests, sends responses, and performs the one tool
//! invocation the dispatcher hands back.

pub mod calculator;
pub mod dispatch;
pub mod envelope;
pub mod json;
pub mod parse;
pub mod server;
pub mod text;
pub mod tools;
pub mod transport;

pub use json::JsonValue;
