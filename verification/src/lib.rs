//! Client-side WebSocket session engine.
//!
//! The crate models a duplex WebSocket session: connection establishment
//! (certificate material, custom headers, extension negotiation), the
//! bounded outbound queue that serializes concurrent senders onto one
//! network sink, and the dispatcher that turns inbound frames into
//! application notifications and automatic pong responses.

pub mod dispatch;
pub mod error;
pub mod frame;
pub mod headers;
pub mod queue;
pub mod session;
