//! Addresses of actors on other nodes.

use vstd::prelude::*;
use std::marker::PhantomData;

verus! {

/// The name of a node.
#[derive(Debug, Clone, PartialEq, Eq, Hash)]
pub struct NodeId(pub String);

/// The name of an actor together with the node it lives on.
#[derive(Debug, Clone)]
pub struct RemoteActorId {
    pub node: NodeId,
    pub actor_name: String,
}

/// The address of an actor of type `A` on another node. It is a type of its
/// own: a remote address is never taken for a local one.
pub struct RemoteAddr<A> {
    pub id: RemoteActorId,
    pub node_addr: String,
    _phantom: PhantomData<A>,
}

/// A remote address as plain values.
pub ghost struct RemoteAddrView {
    pub node: Seq<char>,
    pub actor_name: Seq<char>,
    pub node_addr: Seq<char>,
}

impl<A> View for RemoteAddr<A> {
    type V = RemoteAddrView;

    closed spec fn view(&self) -> RemoteAddrView {
        RemoteAddrView {
            node: self.id.node.0@,
            actor_name: self.id.actor_name@,
            node_addr: self.node_addr@,
        }
    }
}

impl<A> RemoteAddr<A> {
    /// The address of actor `actor_name` on node `node_id`, reached at
    /// `node_addr`.
    pub fn new(node_id: &str, actor_name: &str, node_addr: &str) -> (addr: Self)
        ensures
            addr@ == (RemoteAddrView {
                node: node_id@,
                actor_name: actor_name@,
                node_addr: node_addr@,
            }),
    {
        RemoteAddr {
            id: RemoteActorId { node: NodeId(node_id.to_owned()), actor_name: actor_name.to_owned() },
            node_addr: node_addr.to_owned(),
            _phantom: PhantomData,
        }
    }
}

} // verus!
