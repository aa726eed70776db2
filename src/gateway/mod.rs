//! The gateway session: its configuration, the reconnection policy, the heartbeat clock,
//! the wire encoding of intents, the reader's decisions on inbound frames, and the state
//! machine that ties one connection attempt to the next.
//!
//! Intents queued for the writer survive a reconnection: the outbound queue belongs to the
//! session, not to an attempt, so an intent still queued when an attempt fails is written
//! on the next one, once and in order. The one intent whose write failed is reported with
//! the failure and is not retried. The credential is sent on each new socket before the
//! writer starts, so it is always an attempt's first frame.

pub mod config;
pub mod heartbeat;
pub mod policy;
pub mod reader;
pub mod session;
pub mod wire;

pub use config::GatewayConfig;
