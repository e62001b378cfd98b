//! A poll-based bridge between a tick-driven consumer and a background
//! WebSocket / HTTP driver.

pub mod connection;
pub mod driver;
pub mod error;
pub mod rpc;

pub use error::RecvError;
