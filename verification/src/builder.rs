//! Setup: the two halves of discovery, joined by one channel.

use crate::channel::{feeds, join_channel};
use crate::publisher::GossipDiscoverySender;
use crate::tracker::GossipDiscoveryReceiver;
use vstd::prelude::*;

verus! {

/// Makes the publisher and the tracker of one participant.
pub struct GossipDiscoveryBuilder {}

impl GossipDiscoveryBuilder {
    /// A publisher and a tracker that share a new channel of join requests:
    /// what the tracker asks for, the publisher takes. The tracker starts
    /// with an empty neighbor map and has asked for nothing.
    pub fn init() -> (halves: (GossipDiscoverySender, GossipDiscoveryReceiver))
        ensures
            halves.1.neighbors().dom() == Set::<Seq<char>>::empty(),
            halves.1.requests_sent().len() == 0,
            feeds(halves.1.sending_end(), halves.0.receiving_end()),
    {
        let (peer_tx, peer_rx) = join_channel();
        (GossipDiscoverySender::new(peer_rx), GossipDiscoveryReceiver::new(peer_tx))
    }
}

} // verus!
