//! Federation: instances that find each other, list their agents to each other and
//! pass tasks on.

use vstd::prelude::*;

pub mod api;
pub mod discovery;
pub mod manager;
pub mod tool;

verus! {

/// What is known of a peer's state.
#[derive(Clone, Copy, Debug, PartialEq, Eq, Structural)]
pub enum PeerHealth {
    /// The peer answered the last time it was asked.
    Healthy,
    /// The peer has not answered yet.
    Unknown,
}

/// How a peer came to be known.
#[derive(Clone, Copy, Debug, PartialEq, Eq, Structural)]
pub enum PeerSource {
    /// Named in the configuration.
    Static,
    /// Found on the local network.
    Mdns,
}

/// A known peer. What a peer tells of its agents is of type `A`.
pub struct PeerState<A> {
    pub name: String,
    pub url: String,
    pub shared_secret: String,
    pub agents: Vec<A>,
    pub health: PeerHealth,
    pub source: PeerSource,
}

/// The federation service of this instance, as `P` provides it.
pub struct FederationService<P> {
    /// The name of this instance.
    pub instance_name: String,
    pub provider: P,
}

/// A task that one instance passes on to an agent of another.
pub struct RelayRequest {
    /// The agent that is to do the task.
    pub agent: String,
    /// The task.
    pub message: String,
    /// The instance that asks.
    pub source_peer: String,
    /// The agent that asks.
    pub source_agent: Option<String>,
    /// The session in which the answering agent keeps the exchange.
    pub namespace: String,
}

/// What an agent answered to a [`RelayRequest`].
pub struct RelayResponse {
    pub message: String,
    /// The agent that answered.
    pub agent: String,
    /// The instance that it belongs to.
    pub instance: String,
}

}
