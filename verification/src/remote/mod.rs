//! The remote adapter: envelopes, their bytes on a stream, routing and the
//! type registry.

pub mod addr;
pub mod cluster;
pub mod envelope;
pub mod handler;
pub mod registry;
pub mod table;
pub mod tcp;
pub mod wire;

pub use addr::{NodeId, RemoteActorId, RemoteAddr};
pub use cluster::{ClusterNode, Node, NodeInfo, NodeStatus};
pub use envelope::Envelope;
pub use handler::{MessageRouter, RemoteMessage};
pub use registry::{deserialize_payload, register_message, RegistryError, TypeRegistry};
pub use tcp::{EnvelopeCodec, FrameError};
