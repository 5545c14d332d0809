use gossip_discovery::{Cycle, GossipDiscoveryBuilder, GossipDiscoverySender, Node, NodeId};

fn id(first: u8) -> NodeId {
    NodeId::from_bytes([first; 32])
}

fn node(name: &str, first: u8, count: u32) -> Node {
    Node { name: name.to_string(), node_id: id(first), count }
}

#[test]
fn three_cycles_from_five_announce_five_six_seven() {
    let (mut publisher, _tracker) = GossipDiscoveryBuilder::init();
    let mut me = node("me", 1, 5);
    let mut counts = Vec::new();
    for _ in 0..3 {
        let cycle = publisher.gossip(&mut me);
        let announced = Node::decode(&cycle.payload.unwrap()).unwrap();
        assert_eq!(announced.name, "me");
        assert_eq!(announced.node_id, id(1));
        counts.push(announced.count);
    }
    assert_eq!(counts, vec![5, 6, 7]);
    assert_eq!(me, node("me", 1, 8));
}

#[test]
fn a_cycle_announces_the_counter_as_it_stands() {
    let (mut publisher, _tracker) = GossipDiscoveryBuilder::init();
    let mut me = node("me", 1, 0);
    let cycle = publisher.gossip(&mut me);
    assert_eq!(
        cycle,
        Cycle { joins: vec![], payload: Some(node("me", 1, 0).encode().unwrap()), last: false }
    );
    assert_eq!(me.count, 1);
}

#[test]
fn the_counter_may_reach_its_last_value() {
    let (mut publisher, _tracker) = GossipDiscoveryBuilder::init();
    let mut me = node("me", 1, u32::MAX - 1);
    let cycle = publisher.gossip(&mut me);
    assert!(!cycle.last);
    assert_eq!(Node::decode(&cycle.payload.unwrap()).unwrap().count, u32::MAX - 1);
    assert_eq!(me.count, u32::MAX);
}

#[test]
fn the_last_value_of_the_counter_is_announced_and_not_raised() {
    let (mut publisher, mut tracker) = GossipDiscoveryBuilder::init();
    tracker.record(node("a", 9, 0));
    let mut me = node("me", 1, u32::MAX);
    let cycle = publisher.gossip(&mut me);
    assert!(cycle.last);
    assert_eq!(cycle.joins, vec![id(9)]);
    assert_eq!(Node::decode(&cycle.payload.unwrap()), Ok(node("me", 1, u32::MAX)));
    assert_eq!(me, node("me", 1, u32::MAX));
}

#[test]
fn announce_makes_the_payload_then_counts() {
    let mut me = node("me", 3, 41);
    let payload = me.announce().unwrap();
    assert_eq!(Node::decode(&payload), Ok(node("me", 3, 41)));
    assert_eq!(me, node("me", 3, 42));
}

#[test]
fn a_cycle_takes_the_joins_that_wait_in_their_order() {
    let (mut publisher, mut tracker) = GossipDiscoveryBuilder::init();
    let mut me = node("me", 1, 0);
    tracker.record(node("a", 10, 0));
    tracker.record(node("b", 11, 0));
    tracker.record(node("a", 12, 1));
    tracker.record(node("c", 13, 0));
    let cycle = publisher.gossip(&mut me);
    assert_eq!(cycle.joins, vec![id(10), id(11), id(13)]);
    let cycle = publisher.gossip(&mut me);
    assert_eq!(cycle.joins, vec![]);
    tracker.record(node("d", 14, 0));
    let cycle = publisher.gossip(&mut me);
    assert_eq!(cycle.joins, vec![id(14)]);
    assert_eq!(me.count, 3);
}

#[test]
fn pending_joins_ends_when_the_tracker_is_gone() {
    let (mut publisher, mut tracker) = GossipDiscoveryBuilder::init();
    tracker.record(node("a", 10, 0));
    drop(tracker);
    assert_eq!(publisher.pending_joins(), vec![id(10)]);
    assert_eq!(publisher.pending_joins(), vec![]);
}

#[test]
fn two_participants_find_each_other() {
    let (mut publisher_a, mut tracker_a) = GossipDiscoveryBuilder::init();
    let (mut publisher_b, mut tracker_b) = GossipDiscoveryBuilder::init();
    let mut a = node("a", 1, 0);
    let mut b = node("b", 2, 0);
    let mut joins_a = Vec::new();
    let mut joins_b = Vec::new();
    for _ in 0..3 {
        let cycle_a = publisher_a.gossip(&mut a);
        let cycle_b = publisher_b.gossip(&mut b);
        joins_a.extend(cycle_a.joins);
        joins_b.extend(cycle_b.joins);
        tracker_a.update_map(&gossip_discovery::Event::Received(cycle_b.payload.unwrap()));
        tracker_b.update_map(&gossip_discovery::Event::Received(cycle_a.payload.unwrap()));
    }
    assert_eq!(joins_a, vec![id(2)]);
    assert_eq!(joins_b, vec![id(1)]);
    assert_eq!(tracker_a.lookup(&"b".to_string()), Some(id(2)));
    assert_eq!(tracker_b.lookup(&"a".to_string()), Some(id(1)));
}

#[test]
fn keep_puts_an_identifier_at_the_end_and_stops_at_nothing() {
    let mut joins = vec![id(1)];
    assert!(GossipDiscoverySender::keep(&mut joins, Some(id(2))));
    assert_eq!(joins, vec![id(1), id(2)]);
    assert!(GossipDiscoverySender::keep(&mut joins, Some(id(1))));
    assert_eq!(joins, vec![id(1), id(2), id(1)]);
    assert!(!GossipDiscoverySender::keep(&mut joins, None));
    assert_eq!(joins, vec![id(1), id(2), id(1)]);
    let mut none = Vec::new();
    assert!(!GossipDiscoverySender::keep(&mut none, None));
    assert_eq!(none, vec![]);
}

#[test]
fn pending_joins_takes_all_that_lie_in_the_channel_in_order() {
    let (mut publisher, mut tracker) = GossipDiscoveryBuilder::init();
    let mut expected = Vec::new();
    for i in 0..100u8 {
        tracker.record(node(&format!("peer{i}"), i, 0));
        expected.push(id(i));
    }
    assert_eq!(publisher.pending_joins(), expected);
    assert_eq!(publisher.pending_joins(), vec![]);
    tracker.record(node("late", 200, 0));
    tracker.record(node("peer3", 201, 1));
    tracker.record(node("later", 202, 0));
    assert_eq!(publisher.pending_joins(), vec![id(200), id(202)]);
}

#[test]
fn a_new_channel_holds_no_join_request() {
    let (mut publisher, _tracker) = GossipDiscoveryBuilder::init();
    assert_eq!(publisher.pending_joins(), vec![]);
    let mut me = node("me", 1, 0);
    assert_eq!(publisher.gossip(&mut me).joins, vec![]);
}
