//! A client for the Open Agent Management Protocol (OpAMP).
//!
//! The crate holds the protocol logic of an OpAMP client as plain state
//! machines: the connection life cycle, the mirror of the agent state that the
//! server is believed to know, the numbering of outbound messages, heartbeats and
//! the dispatch of server messages to user callbacks. Network traffic is not
//! performed here: every operation that needs the network takes the outcome of
//! the exchange as a value, so that a driver can run the client over any
//! runtime.
pub mod address;
pub mod api;
pub mod backoff;
pub mod codec;
pub mod dispatch;
pub mod extras;
pub mod httpclient;
pub mod opamp;
pub mod session;
pub mod state;
pub mod wsclient;

