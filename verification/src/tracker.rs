//! The neighbor tracker: it reads what the gossip topic delivers, keeps the
//! neighbor map, and asks for a join to each peer whose name is new.

use crate::channel::{feeds, same_sending_end, send_request, sent, takes};
use crate::neighbors::{
    entries_shared, map_contains, map_get, map_insert, map_new, map_share, neighbor_entries,
};
use crate::node::{Node, NodeId, NodeView};
use crate::wire::{decoded_announcement, encoded_announcement};
use dashmap::DashMap;
use std::sync::Arc;
use tokio::sync::mpsc::UnboundedSender;
use vstd::prelude::*;

verus! {

/// What the gossip topic hands to the tracker.
#[derive(Clone, Debug, PartialEq, Eq)]
pub enum Event {
    /// Content was delivered: the payload of a message.
    Received(Vec<u8>),
    /// Anything else that the transport reports.
    Other,
}

/// What the tracker did with an event.
#[derive(Clone, Copy, Debug, PartialEq, Eq)]
pub enum Update {
    /// The event delivered no content; nothing was done.
    Ignored,
    /// The payload was no announcement; it was skipped.
    Malformed,
    /// The name was new. A join to `node_id` was asked for, and `queued` says
    /// whether the channel took the request; then the peer was recorded.
    Discovered { node_id: NodeId, queued: bool },
    /// The name was known; its entry now holds the identifier announced.
    Refreshed,
}

/// The neighbor map after an announcement was recorded in it.
pub open spec fn recorded(m: Map<Seq<char>, Seq<u8>>, a: NodeView) -> Map<Seq<char>, Seq<u8>> {
    m.insert(a.name, a.node_id)
}

/// Whether an announcement comes from a name that the map does not hold.
pub open spec fn is_new(m: Map<Seq<char>, Seq<u8>>, a: NodeView) -> bool {
    !m.contains_key(a.name)
}

/// The neighbor map after a sequence of announcements was recorded in it,
/// the first one first.
pub open spec fn recorded_all(m: Map<Seq<char>, Seq<u8>>, anns: Seq<NodeView>) -> Map<
    Seq<char>,
    Seq<u8>,
>
    decreases anns.len(),
{
    if anns.len() == 0 {
        m
    } else {
        recorded(recorded_all(m, anns.drop_last()), anns.last())
    }
}

/// Whether the announcement at place `i` of a sequence has a join asked for:
/// whether its name is new to the map that the earlier ones have left.
pub open spec fn requested(m: Map<Seq<char>, Seq<u8>>, anns: Seq<NodeView>, i: int) -> bool {
    is_new(recorded_all(m, anns.take(i)), anns[i])
}

/// The join request that an answer of the tracker reports as put into the
/// channel: the identifier of a peer that was discovered, where the channel
/// took it, and nothing else.
pub open spec fn asked(out: Update) -> Seq<Seq<u8>> {
    match out {
        Update::Discovered { node_id, queued: true } => seq![node_id@],
        _ => Seq::empty(),
    }
}

/// What the tracker answers to an announcement that it has read, on a map
/// `m` and a channel that takes the next request or not: for a name that is
/// new, that the peer was discovered, with the identifier announced and
/// whether the channel took the request; for a known name, that its entry
/// was refreshed.
pub open spec fn answers(out: Update, m: Map<Seq<char>, Seq<u8>>, a: NodeView, taken: bool) -> bool {
    if is_new(m, a) {
        out matches Update::Discovered { node_id, queued } && node_id@ == a.node_id && queued
            == taken
    } else {
        out == Update::Refreshed
    }
}

/// The receiving half of discovery: the neighbor map and the producing end
/// of the channel of join requests.
pub struct GossipDiscoveryReceiver {
    neighbor_map: Arc<DashMap<String, NodeId>>,
    peer_tx: UnboundedSender<NodeId>,
}

impl GossipDiscoveryReceiver {
    /// The neighbor map as a mathematical map, from names to identifiers.
    pub closed spec fn neighbors(&self) -> Map<Seq<char>, Seq<u8>> {
        neighbor_entries(*self.neighbor_map)
    }

    /// The end of the channel through which this tracker asks for joins.
    pub closed spec fn sending_end(&self) -> UnboundedSender<NodeId> {
        self.peer_tx
    }

    /// The join requests that the tracker has put into the channel so far,
    /// the oldest first.
    pub open spec fn requests_sent(&self) -> Seq<Seq<u8>> {
        sent(self.sending_end())
    }

    /// Whether the channel takes the join request that the tracker next
    /// puts in.
    pub open spec fn request_taken(&self) -> bool {
        takes(self.sending_end())
    }

    /// A tracker with an empty neighbor map, which sends its join requests
    /// into `peer_tx`.
    pub(crate) fn new(peer_tx: UnboundedSender<NodeId>) -> (tracker: GossipDiscoveryReceiver)
        ensures
            tracker.neighbors().dom() == Set::<Seq<char>>::empty(),
            tracker.sending_end() == peer_tx,
    {
        GossipDiscoveryReceiver { neighbor_map: Arc::new(map_new()), peer_tx }
    }

    /// Whether a peer of this name was seen.
    pub fn knows(&self, name: &String) -> (known: bool)
        ensures
            known == self.neighbors().contains_key(name@),
    {
        map_contains(&self.neighbor_map, name)
    }

    /// The identifier that was announced last under this name.
    pub fn lookup(&self, name: &String) -> (found: Option<NodeId>)
        ensures
            match found {
                Some(id) => self.neighbors().contains_key(name@) && self.neighbors()[name@] == id@,
                None => !self.neighbors().contains_key(name@),
            },
    {
        map_get(&self.neighbor_map, name)
    }

    /// Takes in one announcement. If its name is new, a join to its
    /// identifier is asked for first. Then, new or not, the identifier is
    /// stored under the name.
    ///
    /// The counter is not looked at: an announcement whose counter is lower
    /// than one seen before, as after a restart of the peer, is taken in like
    /// any other, and asks for no new join.
    pub fn record(&mut self, node: Node) -> (out: Update)
        ensures
            final(self).neighbors() == recorded(old(self).neighbors(), node@),
            answers(out, old(self).neighbors(), node@, old(self).request_taken()),
            final(self).requests_sent() == old(self).requests_sent() + asked(out),
            same_sending_end(old(self).sending_end(), final(self).sending_end()),
    {
        let out = if map_contains(&self.neighbor_map, &node.name) {
            Update::Refreshed
        } else {
            let queued = send_request(&mut self.peer_tx, node.node_id);
            Update::Discovered { node_id: node.node_id, queued }
        };
        map_insert(&mut self.neighbor_map, node.name, node.node_id);
        out
    }

    /// Takes in one event of the gossip topic. Content that is an
    /// announcement is recorded; content that is none is skipped; any other
    /// event is ignored. The neighbor map changes in the first case only,
    /// and a join is asked for only there, for a name that is new.
    pub fn update_map(&mut self, event: &Event) -> (out: Update)
        ensures
            final(self).requests_sent() == old(self).requests_sent() + asked(out),
            same_sending_end(old(self).sending_end(), final(self).sending_end()),
            match *event {
                Event::Received(payload) => match decoded_announcement(payload@) {
                    Some(a) => final(self).neighbors() == recorded(old(self).neighbors(), a)
                        && answers(out, old(self).neighbors(), a, old(self).request_taken()),
                    None => out == Update::Malformed && final(self).neighbors() == old(
                        self,
                    ).neighbors(),
                },
                Event::Other => out == Update::Ignored && final(self).neighbors() == old(
                    self,
                ).neighbors(),
            },
    {
        match event {
            Event::Received(payload) => match Node::decode(payload.as_slice()) {
                Ok(node) => self.record(node),
                Err(_) => Update::Malformed,
            },
            Event::Other => Update::Ignored,
        }
    }

    /// A handle on the neighbor map, for the tasks that read it while the
    /// tracker runs. It is for reading: only the tracker writes to the map.
    /// A reader that keeps a reference into the map while the tracker runs
    /// on the same thread can bring both to a halt, so a reader copies what
    /// it needs and lets go.
    ///
    /// The handle is on the tracker's own map: when it is handed out, the
    /// map behind it holds what the tracker has recorded. What the tracker
    /// records later shows through the handle too, which is why the
    /// contract speaks of the moment of the call and of no later one.
    /// Nothing in this library reads through a handle that was handed out.
    pub fn neighbor_map(&self) -> (shared: Arc<DashMap<String, NodeId>>)
        ensures
            entries_shared(shared) == self.neighbors(),
    {
        map_share(&self.neighbor_map)
    }
}

/// A tracker that knows nobody, handed the payload of an announcement,
/// answers that it has discovered the peer, with the identifier announced,
/// and is left with a map of that one name.
pub proof fn lemma_new_tracker_discovers(
    a: NodeView,
    payload: Seq<u8>,
    m: Map<Seq<char>, Seq<u8>>,
    taken: bool,
    out: Update,
)
    requires
        encoded_announcement(a) == Some(payload),
        m.dom() == Set::<Seq<char>>::empty(),
        decoded_announcement(payload) matches Some(read) && answers(out, m, read, taken),
    ensures
        out matches Update::Discovered { node_id, queued } && node_id@ == a.node_id && queued
            == taken,
        recorded(m, a).dom() == set![a.name],
        recorded(m, a)[a.name] == a.node_id,
{
    assert(recorded(m, a).dom() =~= set![a.name]);
}

/// Recording never takes a name out of the neighbor map.
pub proof fn lemma_neighbors_only_grow(m: Map<Seq<char>, Seq<u8>>, anns: Seq<NodeView>)
    ensures
        m.dom().subset_of(recorded_all(m, anns).dom()),
    decreases anns.len(),
{
    if anns.len() > 0 {
        lemma_neighbors_only_grow(m, anns.drop_last());
    }
}

/// Every name that was announced is in the neighbor map afterwards.
pub proof fn lemma_announced_names_are_held(
    m: Map<Seq<char>, Seq<u8>>,
    anns: Seq<NodeView>,
    i: int,
)
    requires
        0 <= i < anns.len(),
    ensures
        recorded_all(m, anns).contains_key(anns[i].name),
    decreases anns.len(),
{
    if i < anns.len() - 1 {
        lemma_announced_names_are_held(m, anns.drop_last(), i);
    }
}

/// After any sequence of announcements, the entry of a name holds the
/// identifier of the last announcement that carried the name.
pub proof fn lemma_last_announcement_stands(
    m: Map<Seq<char>, Seq<u8>>,
    anns: Seq<NodeView>,
    i: int,
)
    requires
        0 <= i < anns.len(),
        forall|j: int| i < j < anns.len() ==> anns[j].name != anns[i].name,
    ensures
        recorded_all(m, anns).contains_key(anns[i].name),
        recorded_all(m, anns)[anns[i].name] == anns[i].node_id,
    decreases anns.len(),
{
    if i < anns.len() - 1 {
        lemma_last_announcement_stands(m, anns.drop_last(), i);
    }
}

/// A name that the map held before is never asked a join for.
pub proof fn lemma_known_name_is_not_requested(
    m: Map<Seq<char>, Seq<u8>>,
    anns: Seq<NodeView>,
    i: int,
)
    requires
        0 <= i < anns.len(),
        m.contains_key(anns[i].name),
    ensures
        !requested(m, anns, i),
{
    lemma_neighbors_only_grow(m, anns.take(i));
}

/// A name has a join asked for at most once: of two announcements with one
/// name, whatever identifiers they carry, the later one asks for none.
pub proof fn lemma_one_request_for_a_name(
    m: Map<Seq<char>, Seq<u8>>,
    anns: Seq<NodeView>,
    i: int,
    j: int,
)
    requires
        0 <= i < j < anns.len(),
        anns[i].name == anns[j].name,
    ensures
        !requested(m, anns, j),
{
    let before = anns.take(j);
    assert(before[i] == anns[i]);
    lemma_announced_names_are_held(m, before, i);
}

/// One more announcement is one more step: the map after it is the map
/// before it with this announcement recorded, and a join is asked for it
/// exactly if its name is new to the map before it.
pub proof fn lemma_one_more_announcement(
    m: Map<Seq<char>, Seq<u8>>,
    anns: Seq<NodeView>,
    a: NodeView,
)
    ensures
        recorded_all(m, anns.push(a)) == recorded(recorded_all(m, anns), a),
        requested(m, anns.push(a), anns.len() as int) == is_new(recorded_all(m, anns), a),
{
    let more = anns.push(a);
    assert(more.drop_last() =~= anns);
    assert(more.take(anns.len() as int) =~= anns);
}

} // verus!
