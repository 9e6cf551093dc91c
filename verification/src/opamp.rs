//! The protocol: its messages, the defaults of the agent state, the clock and
//! identifier helpers, and the interface of a transport.
pub mod defaults;
pub mod spec;
pub mod util;

use crate::api::ApiClientError;
use crate::state::StateResponse;
use vstd::prelude::*;

verus! {

/// What a transport offers to the state machine: one operation for each state
/// that invokes one, and the identity of the agent. A transport that can do its
/// own input and output implements this and is driven by
/// [`State::evaluate`](crate::state::State::evaluate).
pub trait Channel: Send {
    /// The identifier of the agent instance.
    fn get_instance_id(&self) -> &String;

    /// Advances the transport by one tick.
    fn trigger(&mut self);

    /// Establishes the connection.
    fn connect(&mut self) -> Result<StateResponse, ApiClientError>;

    /// Queues the first message.
    fn handshake(&mut self) -> Result<StateResponse, ApiClientError>;

    /// One unit of inbound and outbound work.
    fn poll(&mut self) -> Result<StateResponse, ApiClientError>;

    /// Puts what is queued on the wire.
    fn send(&mut self) -> Result<StateResponse, ApiClientError>;

    /// Awaits further inbound data.
    fn wait(&mut self) -> Result<StateResponse, ApiClientError>;
}

} // verus!
