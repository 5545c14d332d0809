//! Peer discovery over a gossip topic.
//!
//! Every participant announces itself on the topic at a fixed cadence. A
//! participant that reads an announcement from a name it has not seen before
//! asks the transport for a direct link to that peer, and remembers under the
//! name the identifier that was announced last.
//!
//! This crate holds the protocol: the announcement and its wire form, the
//! neighbor bookkeeping of the tracker, the cycle of the publisher, and the
//! setup that joins the two by a channel of join requests. Subscribing,
//! broadcasting, joining and sleeping belong to the program that hosts it.

pub mod builder;
pub mod channel;
pub mod neighbors;
pub mod node;
pub mod publisher;
pub mod tracker;
pub mod wire;

pub use builder::GossipDiscoveryBuilder;
pub use node::{Node, NodeId, NodeView};
pub use publisher::{Cycle, GossipDiscoverySender};
pub use tracker::{Event, GossipDiscoveryReceiver, Update};
pub use wire::MalformedMessage;
