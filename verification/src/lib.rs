//! Request/response correlation over a one-directional event channel.
//!
//! A backend issues calls toward a frontend over a fire-and-forget
//! publish/subscribe transport. This crate owns the pieces that make such a
//! call behave like an ordinary remote call: allocation of request
//! identifiers, bookkeeping of pending calls, encoding of outbound requests,
//! decoding of inbound replies, and delivery of each reply to exactly the
//! caller whose identifier it bears.

pub mod codec;
pub mod engine;
pub mod errors;
pub mod ids;
pub mod json;

pub use codec::Reply;
pub use engine::Correlator;
pub use errors::CallError;
pub use ids::IdGen;
