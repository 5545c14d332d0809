//! The channel of join requests, from the tracker to the publisher.
//!
//! It is an unbounded channel of `tokio`. The two ends live in two tasks, so
//! each end is spoken of by itself: the sending end by what it has put into
//! the channel, the receiving end by what it finds there when it looks.

use crate::node::NodeId;
use tokio::sync::mpsc::{UnboundedReceiver, UnboundedSender};
use vstd::prelude::*;

verus! {

/// `tokio::sync::mpsc::UnboundedSender`, whose content only `tokio` reads.
#[verifier::external_type_specification]
#[verifier::external_body]
#[verifier::reject_recursive_types(T)]
pub struct ExUnboundedSender<T>(UnboundedSender<T>);

/// `tokio::sync::mpsc::UnboundedReceiver`, whose content only `tokio` reads.
#[verifier::external_type_specification]
#[verifier::external_body]
#[verifier::reject_recursive_types(T)]
pub struct ExUnboundedReceiver<T>(UnboundedReceiver<T>);

/// The identifiers that a sending end has put into the channel so far, the
/// oldest first.
pub uninterp spec fn sent(tx: UnboundedSender<NodeId>) -> Seq<Seq<u8>>;

/// Whether the channel takes the identifier that is next put in through a
/// sending end. It does unless the receiving end is closed or gone by then.
pub uninterp spec fn takes(tx: UnboundedSender<NodeId>) -> bool;

/// Whether a sending end and a receiving end are the two ends of one
/// channel, so that what is put in through the one comes out at the other.
pub uninterp spec fn feeds(tx: UnboundedSender<NodeId>, rx: UnboundedReceiver<NodeId>) -> bool;

/// Whether a sending end is still on the channel it was on before.
pub open spec fn same_sending_end(
    before: UnboundedSender<NodeId>,
    after: UnboundedSender<NodeId>,
) -> bool {
    forall|rx: UnboundedReceiver<NodeId>| #[trigger] feeds(after, rx) == feeds(before, rx)
}

/// Whether a receiving end is still on the channel it was on before.
pub open spec fn same_receiving_end(
    before: UnboundedReceiver<NodeId>,
    after: UnboundedReceiver<NodeId>,
) -> bool {
    forall|tx: UnboundedSender<NodeId>| #[trigger] feeds(tx, after) == feeds(tx, before)
}

/// The identifiers that lie in the channel for a receiving end, the oldest
/// first, at the moment when that end next looks into the channel or takes
/// from it. The sending end may add to the channel at any time, so this is
/// what the next look finds, which may be more than lay there when the end
/// was made or last used. An identifier that is just being put in at that
/// moment lies there only if `UnboundedReceiver::len`, called then, would
/// count it.
pub uninterp spec fn waiting(rx: UnboundedReceiver<NodeId>) -> Seq<Seq<u8>>;

/// Calls `tokio::sync::mpsc::unbounded_channel`, which gives the two ends of
/// one new channel. Nothing has been put in through the sending end.
#[verifier::external_body]
pub(crate) fn join_channel() -> (halves: (UnboundedSender<NodeId>, UnboundedReceiver<NodeId>))
    ensures
        sent(halves.0).len() == 0,
        feeds(halves.0, halves.1),
{
    tokio::sync::mpsc::unbounded_channel()
}

/// Calls `UnboundedSender::send`, and says whether the identifier was taken:
/// it is not when the receiving end is closed or gone. Where it was taken,
/// it is the last that this end has put in; where not, nothing was put in.
/// The end stays on its channel.
#[verifier::external_body]
pub(crate) fn send_request(tx: &mut UnboundedSender<NodeId>, id: NodeId) -> (queued: bool)
    ensures
        queued == takes(*old(tx)),
        sent(*final(tx)) == if queued {
            sent(*old(tx)).push(id@)
        } else {
            sent(*old(tx))
        },
        same_sending_end(*old(tx), *final(tx)),
{
    tx.send(id).is_ok()
}

/// Calls `UnboundedReceiver::len`, which looks into the channel and counts
/// what lies there. Only this end takes from the channel, so what was
/// counted stays in front, in its order, until this end takes it. The end
/// stays on its channel.
#[verifier::external_body]
pub(crate) fn waiting_requests(rx: &mut UnboundedReceiver<NodeId>) -> (n: usize)
    ensures
        n == waiting(*old(rx)).len(),
        waiting(*old(rx)).is_prefix_of(waiting(*final(rx))),
        same_receiving_end(*old(rx), *final(rx)),
{
    rx.len()
}

/// Calls `UnboundedReceiver::try_recv`, without waiting for the other end.
/// If identifiers lie in the channel, the oldest of them comes back, and the
/// others stay in front, in their order. Nothing comes back when the channel
/// is empty or closed. The end stays on its channel.
#[verifier::external_body]
pub(crate) fn next_request(rx: &mut UnboundedReceiver<NodeId>) -> (id: Option<NodeId>)
    ensures
        same_receiving_end(*old(rx), *final(rx)),
        waiting(*old(rx)).len() > 0 ==> (id matches Some(first) && first@ == waiting(*old(rx))[0]),
        waiting(*old(rx)).len() > 0 ==> waiting(*old(rx)).drop_first().is_prefix_of(
            waiting(*final(rx)),
        ),
{
    rx.try_recv().ok()
}

} // verus!
