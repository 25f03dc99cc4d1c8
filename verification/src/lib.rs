//! A verified core for a chat-relay bridge: long-poll ingestion, strict
//! schema decoding of the messaging API's JSON documents, and the pure
//! translation between inbound messages and the relay service's request
//! and response shapes.

pub mod json;
pub mod envelope;
pub mod num;
pub mod relay;
pub mod schema;
pub mod session;

pub use json::Json;

