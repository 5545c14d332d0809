//! The announcement publisher: once in each cycle it takes the join requests
//! that wait, and makes the payload that announces the local participant.

use crate::channel::{next_request, same_receiving_end, waiting, waiting_requests};
use crate::node::{Node, NodeId, NodeView};
use crate::wire::{decoded_announcement, encoded_announcement};
use tokio::sync::mpsc::UnboundedReceiver;
use vstd::prelude::*;

verus! {

/// What one cycle of the publisher leaves to be done on the gossip topic.
#[derive(Clone, Debug, PartialEq, Eq)]
pub struct Cycle {
    /// The peers to join, in the order in which the joins were asked for.
    pub joins: Vec<NodeId>,
    /// The payload to broadcast. There is none when the announcement could
    /// not be written; the cycle goes on as after a broadcast that failed.
    pub payload: Option<Vec<u8>>,
    /// Whether the counter has run out: this cycle announced the last value
    /// that the counter has, and could not raise it.
    pub last: bool,
}

/// Whether a list of identifiers holds exactly the identifiers `found`, in
/// their order.
pub open spec fn holds(joins: Seq<NodeId>, found: Seq<Seq<u8>>) -> bool {
    &&& joins.len() == found.len()
    &&& forall|i: int| 0 <= i < joins.len() ==> (#[trigger] joins[i])@ == found[i]
}

/// The bytes of a payload, if there is one.
pub open spec fn payload_bytes(payload: Option<Vec<u8>>) -> Option<Seq<u8>> {
    match payload {
        Some(bytes) => Some(bytes@),
        None => None,
    }
}

/// The announcement of a participant after one more cycle: the same name and
/// identifier, and a counter that is higher by one.
pub open spec fn next_announcement(a: NodeView) -> NodeView
    recommends
        a.count < u32::MAX,
{
    NodeView { name: a.name, node_id: a.node_id, count: (a.count + 1) as u32 }
}

/// The announcement of a participant after `cycles` cycles.
pub open spec fn announcement_after(a: NodeView, cycles: nat) -> NodeView
    decreases cycles,
{
    if cycles == 0 {
        a
    } else {
        next_announcement(announcement_after(a, (cycles - 1) as nat))
    }
}

/// Over any number of cycles that the counter has room for, the counter
/// rises by one in each cycle, from the value it started with, while name
/// and identifier stay.
pub proof fn lemma_counter_counts_cycles(a: NodeView, cycles: nat)
    requires
        a.count + cycles <= u32::MAX,
    ensures
        announcement_after(a, cycles).count == a.count + cycles,
        announcement_after(a, cycles).name == a.name,
        announcement_after(a, cycles).node_id == a.node_id,
    decreases cycles,
{
    if cycles > 0 {
        lemma_counter_counts_cycles(a, (cycles - 1) as nat);
    }
}

/// What the cycle after `cycles` cycles broadcasts, where it has a payload,
/// is read back as the participant's name and identifier and the counter it
/// started with, raised by `cycles`: by nothing in the first cycle, and by
/// one more in each cycle after it.
pub proof fn lemma_cycle_announces(a: NodeView, cycles: nat, payload: Seq<u8>)
    requires
        a.count + cycles <= u32::MAX,
        encoded_announcement(announcement_after(a, cycles)) == Some(payload),
    ensures
        decoded_announcement(payload) == Some(
            NodeView { name: a.name, node_id: a.node_id, count: (a.count + cycles) as u32 },
        ),
{
    lemma_counter_counts_cycles(a, cycles);
}

impl Node {
    /// Makes the payload for the counter as it stands, then raises the
    /// counter by one.
    pub fn announce(&mut self) -> (payload: Option<Vec<u8>>)
        requires
            old(self).count < u32::MAX,
        ensures
            payload_bytes(payload) == encoded_announcement(old(self)@),
            final(self)@ == next_announcement(old(self)@),
    {
        let payload = self.encode();
        self.count = self.count + 1;
        payload
    }
}

/// The sending half of discovery: the consuming end of the channel of join
/// requests.
pub struct GossipDiscoverySender {
    peer_rx: UnboundedReceiver<NodeId>,
}

impl GossipDiscoverySender {
    /// A publisher that takes its join requests from `peer_rx`.
    pub(crate) fn new(peer_rx: UnboundedReceiver<NodeId>) -> (publisher: GossipDiscoverySender)
        ensures
            publisher.receiving_end() == peer_rx,
    {
        GossipDiscoverySender { peer_rx }
    }

    /// Takes from the channel, without waiting, the join requests that lie
    /// in it when the call looks into it: all of them, in the order in which
    /// they were made, and no other. What the tracker asks for after that
    /// look is left for the next call.
    pub fn pending_joins(&mut self) -> (joins: Vec<NodeId>)
        ensures
            holds(joins@, waiting(old(self).receiving_end())),
            same_receiving_end(old(self).receiving_end(), final(self).receiving_end()),
    {
        let ghost found = waiting(self.peer_rx);
        let ghost end = self.peer_rx;
        let count = waiting_requests(&mut self.peer_rx);
        let mut joins: Vec<NodeId> = Vec::new();
        let mut taken: usize = 0;
        while taken < count
            invariant
                taken <= count,
                count == found.len(),
                joins@.len() == taken,
                forall|i: int| 0 <= i < taken ==> (#[trigger] joins@[i])@ == found[i],
                found.skip(taken as int).is_prefix_of(waiting(self.peer_rx)),
                same_receiving_end(end, self.peer_rx),
            decreases count - taken,
        {
            let ghost left = waiting(self.peer_rx);
            assert(left.len() > 0 && left[0] == found[taken as int]) by {
                assert(found.skip(taken as int)[0] == found[taken as int]);
            }
            let next = next_request(&mut self.peer_rx);
            if !GossipDiscoverySender::keep(&mut joins, next) {
                return joins;
            }
            assert(found.skip(taken + 1).is_prefix_of(waiting(self.peer_rx))) by {
                assert(found.skip(taken + 1) =~= found.skip(taken as int).drop_first());
                assert(found.skip(taken as int).drop_first().is_prefix_of(left.drop_first()));
            }
            taken += 1;
        }
        joins
    }

    /// One cycle. The join requests that lie in the channel are taken from
    /// it, all and in their order; the payload for the counter as it stands
    /// is made; and the counter is raised by one. Joining, broadcasting and
    /// the pause before the next cycle are left to the caller.
    ///
    /// A counter that stands at its last value is announced like any other.
    /// It cannot be raised: the node is left as it is, and the cycle says
    /// that it was the last.
    pub fn gossip(&mut self, node: &mut Node) -> (cycle: Cycle)
        ensures
            holds(cycle.joins@, waiting(old(self).receiving_end())),
            same_receiving_end(old(self).receiving_end(), final(self).receiving_end()),
            payload_bytes(cycle.payload) == encoded_announcement(old(node)@),
            cycle.last == (old(node).count == u32::MAX),
            final(node)@ == if cycle.last {
                old(node)@
            } else {
                next_announcement(old(node)@)
            },
    {
        let joins = self.pending_joins();
        if node.count < u32::MAX {
            let payload = node.announce();
            Cycle { joins, payload, last: false }
        } else {
            let payload = node.encode();
            Cycle { joins, payload, last: true }
        }
    }

    /// The end of the channel from which this publisher takes its join
    /// requests.
    pub closed spec fn receiving_end(&self) -> UnboundedReceiver<NodeId> {
        self.peer_rx
    }

    /// Takes in what one look into the channel gave. An identifier is put at
    /// the end of `joins`, and another look is due; when the channel gave
    /// nothing, `joins` stays as it is and the taking ends.
    pub fn keep(joins: &mut Vec<NodeId>, next: Option<NodeId>) -> (again: bool)
        ensures
            again == next.is_some(),
            final(joins)@ == match next {
                Some(id) => old(joins)@.push(id),
                None => old(joins)@,
            },
    {
        match next {
            Some(id) => {
                joins.push(id);
                true
            },
            None => false,
        }
    }
}

} // verus!
