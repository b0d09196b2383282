//! Cluster membership: the nodes that this node knows of.

use vstd::prelude::*;
use crate::remote::table::Table;

verus! {

/// The health of a node as its peers see it.
#[derive(Clone, Copy, Debug, PartialEq, Eq, Structural)]
pub enum NodeStatus {
    Up,
    Suspect,
    Down,
}

/// A node of the cluster.
#[derive(Debug)]
pub struct Node {
    pub id: String,
    /// Where the node listens.
    pub addr: String,
    pub status: NodeStatus,
}

/// A node as the membership record carries it, with the status as a number.
#[derive(Debug)]
pub struct NodeInfo {
    pub id: String,
    pub addr: String,
    pub status: i32,
}

/// The number that stands for a status on the wire.
pub open spec fn code_of(status: NodeStatus) -> i32 {
    match status {
        NodeStatus::Up => 0,
        NodeStatus::Suspect => 1,
        NodeStatus::Down => 2,
    }
}

/// The status that a number on the wire stands for. A number that stands for
/// none is read as `Down`.
pub open spec fn status_of(code: i32) -> NodeStatus {
    if code == 0 {
        NodeStatus::Up
    } else if code == 1 {
        NodeStatus::Suspect
    } else {
        NodeStatus::Down
    }
}

/// The node that a membership record describes.
pub open spec fn node_of(info: NodeInfo) -> Node {
    Node { id: info.id, addr: info.addr, status: status_of(info.status) }
}

/// The membership record of a node.
pub open spec fn info_of(node: Node) -> NodeInfo {
    NodeInfo { id: node.id, addr: node.addr, status: code_of(node.status) }
}

impl NodeStatus {
    /// The number that stands for this status on the wire.
    pub fn code(self) -> (code: i32)
        ensures
            code == code_of(self),
    {
        match self {
            NodeStatus::Up => 0,
            NodeStatus::Suspect => 1,
            NodeStatus::Down => 2,
        }
    }

    /// The status that `code` stands for; `Down` for an unknown code.
    pub fn from_code(code: i32) -> (status: Self)
        ensures
            status == status_of(code),
    {
        match code {
            0 => NodeStatus::Up,
            1 => NodeStatus::Suspect,
            2 => NodeStatus::Down,
            _ => NodeStatus::Down,
        }
    }
}

impl Clone for Node {
    fn clone(&self) -> (copy: Self)
        ensures
            copy == *self,
    {
        Node { id: self.id.clone(), addr: self.addr.clone(), status: self.status }
    }
}

impl PartialEq for Node {
    fn eq(&self, other: &Self) -> (same: bool) {
        self.id == other.id && self.addr == other.addr && self.status == other.status
    }
}

impl vstd::std_specs::cmp::PartialEqSpecImpl for Node {
    open spec fn obeys_eq_spec() -> bool {
        true
    }

    open spec fn eq_spec(&self, other: &Self) -> bool {
        self.id@ == other.id@ && self.addr@ == other.addr@ && self.status == other.status
    }
}

impl Eq for Node {}

impl From<NodeInfo> for Node {
    fn from(info: NodeInfo) -> (node: Self) {
        Node { id: info.id, addr: info.addr, status: NodeStatus::from_code(info.status) }
    }
}

impl vstd::std_specs::convert::FromSpecImpl<NodeInfo> for Node {
    open spec fn obeys_from_spec() -> bool {
        true
    }

    open spec fn from_spec(info: NodeInfo) -> Self {
        node_of(info)
    }
}

impl From<&Node> for NodeInfo {
    fn from(node: &Node) -> (info: Self) {
        NodeInfo { id: node.id.clone(), addr: node.addr.clone(), status: node.status.code() }
    }
}

impl vstd::std_specs::convert::FromSpecImpl<&Node> for NodeInfo {
    open spec fn obeys_from_spec() -> bool {
        true
    }

    open spec fn from_spec(node: &Node) -> Self {
        info_of(*node)
    }
}

/// A status survives the wire: the number written for it is read back as the
/// same status, and every number outside the three codes is read as `Down`.
pub proof fn lemma_status_round_trip(status: NodeStatus, code: i32)
    ensures
        status_of(code_of(status)) == status,
        0 <= code_of(status) <= 2,
        !(0 <= code <= 2) ==> status_of(code) == NodeStatus::Down,
{
}

/// A node survives the wire: the record made from a node is read back as
/// that node.
pub proof fn lemma_node_round_trip(node: Node)
    ensures
        node_of(info_of(node)) == node,
{
}

/// This node and the members of the cluster it knows of, by node id.
pub struct ClusterNode {
    /// This node.
    pub local_node: Node,
    members: Table<Node>,
}

impl ClusterNode {
    /// This node.
    pub closed spec fn local(self) -> Node {
        self.local_node
    }

    /// The known members by node id.
    pub closed spec fn members(self) -> Map<Seq<char>, Node> {
        self.members@
    }

    /// The ids of the known members, in the order in which they were first
    /// added.
    pub closed spec fn member_ids(self) -> Seq<Seq<char>> {
        self.members.ids()
    }

    /// A cluster of one: this node, which is up.
    pub fn new(id: String, addr: String) -> (cluster: Self)
        ensures
            cluster.local() == (Node { id, addr, status: NodeStatus::Up }),
            cluster.members() == Map::<Seq<char>, Node>::empty().insert(id@, cluster.local()),
            cluster.member_ids() == seq![id@],
    {
        let local_node = Node { id: id.clone(), addr, status: NodeStatus::Up };
        let members = Table::new().with(id, local_node.clone());
        assert(members.ids() =~= seq![id@]);
        ClusterNode { local_node, members }
    }

    /// Adds a member, or replaces the member that has the node's id.
    pub fn add_member(&mut self, node: Node)
        ensures
            final(self).local() == old(self).local(),
            final(self).members() == old(self).members().insert(node.id@, node),
            final(self).member_ids() == (if old(self).members().contains_key(node.id@) {
                old(self).member_ids()
            } else {
                old(self).member_ids().push(node.id@)
            }),
    {
        let mut table: Table<Node> = Table::new();
        core::mem::swap(&mut self.members, &mut table);
        let key = node.id.clone();
        self.members = table.with(key, node);
    }

    /// All known members, each once, in the order of `member_ids`.
    pub fn get_members(&self) -> (nodes: Vec<Node>)
        ensures
            nodes@.len() == self.member_ids().len(),
            self.member_ids().no_duplicates(),
            forall|k: Seq<char>| self.members().contains_key(k) <==> self.member_ids().contains(k),
            forall|i: int|
                0 <= i < nodes@.len() ==> #[trigger] nodes@[i] == self.members()[self.member_ids()[i]],
    {
        let n: usize = self.members.len();
        let mut nodes: Vec<Node> = Vec::new();
        let mut i: usize = 0;
        while i < n
            invariant
                i <= n,
                n == self.member_ids().len(),
                nodes@.len() == i,
                forall|j: int|
                    0 <= j < i ==> #[trigger] nodes@[j] == self.members()[self.member_ids()[j]],
            decreases n - i,
        {
            nodes.push(self.members.value_at(i).clone());
            i += 1;
        }
        nodes
    }
}

} // verus!
