use ciborium::Value;
use gossip_discovery::{MalformedMessage, Node, NodeId};

fn id(first: u8) -> NodeId {
    let mut bytes = [0u8; 32];
    for (i, b) in bytes.iter_mut().enumerate() {
        *b = first.wrapping_add(i as u8);
    }
    NodeId::from_bytes(bytes)
}

fn node(name: &str, first: u8, count: u32) -> Node {
    Node { name: name.to_string(), node_id: id(first), count }
}

fn written(v: &Value) -> Vec<u8> {
    let mut bytes = Vec::new();
    ciborium::ser::into_writer(v, &mut bytes).unwrap();
    bytes
}

#[test]
fn encode_gives_the_canonical_map() {
    let payload = node("a", 0, 5).encode().unwrap();
    let mut expected: Vec<u8> = vec![0xa3];
    expected.extend_from_slice(&[0x64, b'n', b'a', b'm', b'e', 0x61, b'a']);
    expected.extend_from_slice(&[0x67, b'n', b'o', b'd', b'e', b'_', b'i', b'd', 0x98, 0x20]);
    for b in 0u8..24 {
        expected.push(b);
    }
    for b in 24u8..32 {
        expected.push(0x18);
        expected.push(b);
    }
    expected.extend_from_slice(&[0x65, b'c', b'o', b'u', b'n', b't', 0x05]);
    assert_eq!(payload, expected);
}

#[test]
fn encode_then_decode_gives_the_announcement_back() {
    for sent in [
        node("a", 0, 0),
        node("", 200, 1),
        node("name with spaces and \u{e9}\u{4e2d}", 250, 70000),
        node(&"x".repeat(5000), 7, u32::MAX),
    ] {
        let payload = sent.encode().unwrap();
        assert_eq!(Node::decode(&payload), Ok(sent));
    }
}

#[test]
fn encode_differs_from_its_input_value() {
    let a = node("a", 1, 0);
    let b = node("a", 1, 1);
    assert_ne!(a.encode().unwrap(), b.encode().unwrap());
}

#[test]
fn decode_refuses_bytes_that_are_no_cbor() {
    assert_eq!(Node::decode(&[]), Err(MalformedMessage {}));
    assert_eq!(Node::decode(&[0xff]), Err(MalformedMessage {}));
    assert_eq!(Node::decode(&[0xa3, 0x64, b'n']), Err(MalformedMessage {}));
}

#[test]
fn decode_refuses_a_truncated_payload() {
    let payload = node("a", 0, 5).encode().unwrap();
    assert_eq!(Node::decode(&payload[..payload.len() - 1]), Err(MalformedMessage {}));
}

#[test]
fn decode_refuses_other_cbor_values() {
    assert_eq!(Node::decode(&written(&Value::Null)), Err(MalformedMessage {}));
    assert_eq!(Node::decode(&written(&Value::Text("a".into()))), Err(MalformedMessage {}));
    assert_eq!(Node::decode(&written(&Value::Array(vec![]))), Err(MalformedMessage {}));
    assert_eq!(Node::decode(&written(&Value::Map(vec![]))), Err(MalformedMessage {}));
}

fn entries(name: Value, node_id: Value, count: Value) -> Vec<(Value, Value)> {
    vec![
        (Value::Text("name".into()), name),
        (Value::Text("node_id".into()), node_id),
        (Value::Text("count".into()), count),
    ]
}

#[test]
fn from_value_reads_the_canonical_map() {
    let sent = node("a", 3, 9);
    let v = Value::Map(entries(
        Value::Text("a".into()),
        sent.node_id.to_value(),
        Value::Integer(9.into()),
    ));
    assert_eq!(Node::from_value(&v), Ok(sent.clone()));
    assert_eq!(sent.to_value(), v);
}

#[test]
fn from_value_refuses_entries_in_another_order() {
    let mut e = entries(Value::Text("a".into()), id(0).to_value(), Value::Integer(9.into()));
    e.swap(0, 2);
    assert_eq!(Node::from_value(&Value::Map(e)), Err(MalformedMessage {}));
}

#[test]
fn from_value_refuses_a_missing_or_an_added_entry() {
    let mut e = entries(Value::Text("a".into()), id(0).to_value(), Value::Integer(9.into()));
    e.push((Value::Text("more".into()), Value::Null));
    assert_eq!(Node::from_value(&Value::Map(e.clone())), Err(MalformedMessage {}));
    e.truncate(2);
    assert_eq!(Node::from_value(&Value::Map(e)), Err(MalformedMessage {}));
}

#[test]
fn from_value_refuses_a_wrong_key() {
    let mut e = entries(Value::Text("a".into()), id(0).to_value(), Value::Integer(9.into()));
    e[1].0 = Value::Text("nodeid".into());
    assert_eq!(Node::from_value(&Value::Map(e.clone())), Err(MalformedMessage {}));
    e[1].0 = Value::Bytes(b"node_id".to_vec());
    assert_eq!(Node::from_value(&Value::Map(e)), Err(MalformedMessage {}));
}

#[test]
fn from_value_refuses_fields_of_another_kind() {
    let good = || entries(Value::Text("a".into()), id(0).to_value(), Value::Integer(9.into()));
    let mut e = good();
    e[0].1 = Value::Bytes(vec![b'a']);
    assert_eq!(Node::from_value(&Value::Map(e)), Err(MalformedMessage {}));
    let mut e = good();
    e[1].1 = Value::Bytes(vec![0; 32]);
    assert_eq!(Node::from_value(&Value::Map(e)), Err(MalformedMessage {}));
    let mut e = good();
    e[2].1 = Value::Text("9".into());
    assert_eq!(Node::from_value(&Value::Map(e)), Err(MalformedMessage {}));
}

#[test]
fn from_value_holds_the_count_to_a_u32() {
    let with = |count: i64| {
        Value::Map(entries(Value::Text("a".into()), id(0).to_value(), Value::Integer(count.into())))
    };
    assert_eq!(Node::from_value(&with(0)).unwrap().count, 0);
    assert_eq!(Node::from_value(&with(4294967295)).unwrap().count, u32::MAX);
    assert_eq!(Node::from_value(&with(4294967296)), Err(MalformedMessage {}));
    assert_eq!(Node::from_value(&with(-1)), Err(MalformedMessage {}));
}

#[test]
fn node_id_from_value_wants_32_bytes() {
    let bytes = |n: usize, v: i64| Value::Array(vec![Value::Integer(v.into()); n]);
    assert_eq!(NodeId::from_value(&bytes(32, 255)), Some(NodeId::from_bytes([255; 32])));
    assert_eq!(NodeId::from_value(&bytes(32, 0)), Some(NodeId::from_bytes([0; 32])));
    assert_eq!(NodeId::from_value(&bytes(31, 1)), None);
    assert_eq!(NodeId::from_value(&bytes(33, 1)), None);
    assert_eq!(NodeId::from_value(&bytes(32, 256)), None);
    assert_eq!(NodeId::from_value(&bytes(32, -1)), None);
    assert_eq!(NodeId::from_value(&Value::Null), None);
    let mut mixed = vec![Value::Integer(1.into()); 32];
    mixed[31] = Value::Text("1".into());
    assert_eq!(NodeId::from_value(&Value::Array(mixed)), None);
}

#[test]
fn node_id_to_value_writes_one_integer_for_each_byte() {
    let v = id(10).to_value();
    let items = v.as_array().unwrap();
    assert_eq!(items.len(), 32);
    for (i, item) in items.iter().enumerate() {
        assert_eq!(item, &Value::Integer((10 + i as u8).into()));
    }
    assert_eq!(NodeId::from_value(&v), Some(id(10)));
}

#[test]
fn sealed_keeps_only_what_reads_back_as_the_announcement() {
    let a = node("a", 1, 0);
    let b = node("b", 1, 0);
    let payload = a.encode().unwrap();
    assert_eq!(a.sealed(Some(payload.clone())), Some(payload.clone()));
    assert_eq!(b.sealed(Some(payload)), None);
    assert_eq!(a.sealed(Some(vec![0xff])), None);
    assert_eq!(a.sealed(None), None);
}

#[test]
fn same_compares_the_three_fields() {
    let a = node("a", 1, 0);
    assert!(a.same(&node("a", 1, 0)));
    assert!(!a.same(&node("b", 1, 0)));
    assert!(!a.same(&node("a", 2, 0)));
    assert!(!a.same(&node("a", 1, 1)));
    assert!(id(1).same(&id(1)));
    assert!(!id(1).same(&id(2)));
    assert_eq!(id(4).as_bytes()[0], 4);
}
