//! The announcement record and the identifier of a peer.

use vstd::prelude::*;

verus! {

/// The identifier by which the transport knows a peer: 32 bytes that this
/// library stores, compares and hands on without looking into them.
#[derive(Clone, Copy, Debug, PartialEq, Eq, Hash)]
pub struct NodeId {
    pub bytes: [u8; 32],
}

impl View for NodeId {
    type V = Seq<u8>;

    open spec fn view(&self) -> Seq<u8> {
        self.bytes@
    }
}

impl NodeId {
    /// An identifier made of the given bytes.
    pub fn from_bytes(bytes: [u8; 32]) -> (id: NodeId)
        ensures
            id@ == bytes@,
    {
        NodeId { bytes }
    }

    /// The bytes of the identifier.
    pub fn as_bytes(&self) -> (bytes: &[u8; 32])
        ensures
            bytes@ == self@,
    {
        &self.bytes
    }

    /// Whether two identifiers hold the same bytes.
    pub fn same(&self, other: &NodeId) -> (equal: bool)
        ensures
            equal <==> self@ == other@,
    {
        let mut i: usize = 0;
        while i < 32
            invariant
                i <= 32,
                forall|j: int| 0 <= j < i ==> self.bytes[j] == other.bytes[j],
            decreases 32 - i,
        {
            if self.bytes[i] != other.bytes[i] {
                return false;
            }
            i += 1;
        }
        assert(self@ =~= other@);
        true
    }
}

/// What an announcement says, as a mathematical value.
pub struct NodeView {
    pub name: Seq<char>,
    pub node_id: Seq<u8>,
    pub count: u32,
}

/// One participant's announcement: its stable name, the identifier under
/// which the transport reaches it, and its heartbeat counter.
#[derive(Clone, Debug, PartialEq, Eq)]
pub struct Node {
    pub name: String,
    pub node_id: NodeId,
    pub count: u32,
}

impl View for Node {
    type V = NodeView;

    open spec fn view(&self) -> NodeView {
        NodeView { name: self.name@, node_id: self.node_id@, count: self.count }
    }
}

impl Node {
    /// Whether two announcements say the same.
    pub fn same(&self, other: &Node) -> (equal: bool)
        ensures
            equal <==> self@ == other@,
    {
        self.name == other.name && self.node_id.same(&other.node_id) && self.count == other.count
    }
}

} // verus!
