//! Credential lifecycle and conversation session core for a bot bridge
//! service.
//!
//! The library holds the verified logic of the bridge: the token refresher
//! decision steps, the per-conversation session store, and the request
//! preparation / response application halves of the DirectLine client
//! operations.  Network transport, scheduling and routing live outside the
//! library and only hand plain values in and out.

pub mod abc;
pub mod botapi;
pub mod config;
pub mod directline;
pub mod dl_apis;
pub mod error;
pub mod jwt;
pub mod lists;
pub mod token_cell;
pub mod wire;
pub mod refresh;
pub mod store;
pub mod tokio_tools;
pub mod webserver;
