//! The wire form of an announcement.
//!
//! An announcement travels as one CBOR map of three entries, in this order:
//! `"name"` with a text string, `"node_id"` with an array of 32 integers, one
//! for each byte of the identifier, and `"count"` with an integer. The bytes
//! are written and read by `ciborium`; which CBOR value stands for which
//! announcement is decided here.

use crate::node::{Node, NodeId, NodeView};
use ciborium::value::Integer;
use ciborium::Value;
use vstd::prelude::*;

verus! {

/// `ciborium::Value`, with its variants in view.
#[verifier::external_type_specification]
pub struct ExValue(Value);

/// `ciborium::value::Integer`, whose content only `ciborium` reads.
#[verifier::external_type_specification]
#[verifier::external_body]
pub struct ExInteger(Integer);

/// The number that an `Integer` of `ciborium` holds: what converting it to
/// `i128` gives.
pub uninterp spec fn integer_value(i: Integer) -> int;

/// Calls `Integer::from` on a `u64`. The integer that comes back holds the
/// number given.
#[verifier::external_body]
fn integer_of(n: u64) -> (out: Integer)
    ensures
        integer_value(out) == n,
{
    Integer::from(n)
}

/// Calls `i128::from` on an `Integer`, which hands out the number it holds.
#[verifier::external_body]
fn integer_number(i: &Integer) -> (out: i128)
    ensures
        out == integer_value(*i),
{
    i128::from(*i)
}

/// A CBOR value as a mathematical value.
pub enum Cbor {
    Integer(int),
    Bytes(Seq<u8>),
    Text(Seq<char>),
    Bool(bool),
    Null,
    Tag(u64, Box<Cbor>),
    Array(Seq<Cbor>),
    Table(Seq<(Cbor, Cbor)>),
    /// A value of a kind that this library never reads nor writes.
    Other(Value),
}

/// What a `Value` of `ciborium` holds.
pub open spec fn model(v: Value) -> Cbor
    decreases v,
{
    match v {
        Value::Integer(i) => Cbor::Integer(integer_value(i)),
        Value::Bytes(b) => Cbor::Bytes(b@),
        Value::Text(s) => Cbor::Text(s@),
        Value::Bool(b) => Cbor::Bool(b),
        Value::Null => Cbor::Null,
        Value::Tag(t, inner) => Cbor::Tag(t, Box::new(model(*inner))),
        Value::Array(items) => Cbor::Array(
            Seq::new(
                items@.len(),
                |i: int|
                    if 0 <= i < items@.len() {
                        model(items@[i])
                    } else {
                        Cbor::Null
                    },
            ),
        ),
        Value::Map(entries) => Cbor::Table(
            Seq::new(
                entries@.len(),
                |i: int|
                    if 0 <= i < entries@.len() {
                        (model(entries@[i].0), model(entries@[i].1))
                    } else {
                        (Cbor::Null, Cbor::Null)
                    },
            ),
        ),
        other => Cbor::Other(other),
    }
}

/// The bytes that `ciborium` writes for a value, if it writes it.
pub uninterp spec fn cbor_encoded(c: Cbor) -> Option<Seq<u8>>;

/// The value that `ciborium` reads at the start of some bytes, if it reads
/// one.
pub uninterp spec fn cbor_decoded(bytes: Seq<u8>) -> Option<Cbor>;

/// Calls `ciborium::ser::into_writer` on a value and an empty vector. What
/// is written depends on the value alone; no more is claimed of it.
#[verifier::external_body]
fn cbor_write(v: &Value) -> (out: Option<Vec<u8>>)
    ensures
        match out {
            Some(bytes) => cbor_encoded(model(*v)) == Some(bytes@),
            None => cbor_encoded(model(*v)) is None,
        },
{
    let mut bytes = Vec::new();
    ciborium::ser::into_writer(v, &mut bytes).ok().map(|_| bytes)
}

/// Calls `ciborium::de::from_reader` for a `Value` on a slice. What is read
/// depends on the bytes alone; no more is claimed of it.
#[verifier::external_body]
fn cbor_read(bytes: &[u8]) -> (out: Option<Value>)
    ensures
        match out {
            Some(v) => cbor_decoded(bytes@) == Some(model(v)),
            None => cbor_decoded(bytes@) is None,
        },
{
    ciborium::de::from_reader::<Value, _>(bytes).ok()
}

/// The CBOR array that stands for an identifier: one integer for each byte.
pub open spec fn id_cbor(id: Seq<u8>) -> Cbor {
    Cbor::Array(Seq::new(id.len(), |i: int| Cbor::Integer(id[i] as int)))
}

/// The CBOR value that stands for an announcement.
pub open spec fn announcement_cbor(a: NodeView) -> Cbor {
    Cbor::Table(
        seq![
            (Cbor::Text("name"@), Cbor::Text(a.name)),
            (Cbor::Text("node_id"@), id_cbor(a.node_id)),
            (Cbor::Text("count"@), Cbor::Integer(a.count as int)),
        ],
    )
}

/// Whether a CBOR value is an integer that fits a byte.
pub open spec fn is_byte(c: Cbor) -> bool {
    c matches Cbor::Integer(n) && 0 <= n <= 255
}

/// Whether a CBOR value is an array of 32 bytes.
pub open spec fn is_id(c: Cbor) -> bool {
    &&& c matches Cbor::Array(items)
    &&& items.len() == 32
    &&& forall|i: int| 0 <= i < 32 ==> is_byte(#[trigger] items[i])
}

/// The identifier that an array of 32 bytes stands for.
pub open spec fn id_of(c: Cbor) -> Seq<u8> {
    Seq::new(32, |i: int| c->Array_0[i]->Integer_0 as u8)
}

/// Whether a CBOR value has the form of an announcement.
pub open spec fn is_announcement(c: Cbor) -> bool {
    &&& c matches Cbor::Table(entries)
    &&& entries.len() == 3
    &&& entries[0].0 == Cbor::Text("name"@)
    &&& entries[0].1 is Text
    &&& entries[1].0 == Cbor::Text("node_id"@)
    &&& is_id(entries[1].1)
    &&& entries[2].0 == Cbor::Text("count"@)
    &&& entries[2].1 matches Cbor::Integer(n)
    &&& 0 <= n <= u32::MAX
}

/// The announcement that a CBOR value stands for, if it stands for one.
pub open spec fn announcement_of(c: Cbor) -> Option<NodeView> {
    if is_announcement(c) {
        Some(
            NodeView {
                name: c->Table_0[0].1->Text_0,
                node_id: id_of(c->Table_0[1].1),
                count: c->Table_0[2].1->Integer_0 as u32,
            },
        )
    } else {
        None
    }
}

/// The announcement that a payload carries, if it carries one.
pub open spec fn decoded_announcement(bytes: Seq<u8>) -> Option<NodeView> {
    match cbor_decoded(bytes) {
        Some(c) => announcement_of(c),
        None => None,
    }
}

/// The payload of an announcement: the bytes written for its CBOR value,
/// given that they are read back as the same announcement.
pub open spec fn encoded_announcement(a: NodeView) -> Option<Seq<u8>> {
    match cbor_encoded(announcement_cbor(a)) {
        Some(bytes) => if decoded_announcement(bytes) == Some(a) {
            Some(bytes)
        } else {
            None
        },
        None => None,
    }
}

/// A CBOR value stands for an announcement exactly if it is the value written
/// for that announcement.
pub proof fn lemma_announcement_of_inverts(c: Cbor, a: NodeView)
    ensures
        announcement_of(c) == Some(a) <==> (a.node_id.len() == 32 && announcement_cbor(a) == c),
{
    if a.node_id.len() == 32 && announcement_cbor(a) == c {
        let entries = c->Table_0;
        assert(is_id(entries[1].1));
        assert(id_of(entries[1].1) =~= a.node_id);
    }
    if announcement_of(c) == Some(a) {
        let entries = c->Table_0;
        let items = entries[1].1->Array_0;
        assert(a.node_id.len() == 32);
        assert forall|i: int| 0 <= i < 32 implies Cbor::Integer(a.node_id[i] as int)
            == items[i] by {
            assert(is_byte(items[i]));
        }
        assert(id_cbor(a.node_id)->Array_0 =~= items);
        assert(announcement_cbor(a)->Table_0 =~= entries);
    }
}

/// Whatever `encode` hands out, `decode` reads back as the announcement
/// that was encoded.
pub proof fn lemma_round_trip(a: NodeView, payload: Seq<u8>)
    requires
        encoded_announcement(a) == Some(payload),
    ensures
        decoded_announcement(payload) == Some(a),
{
}

/// A payload that is no announcement.
#[derive(Clone, Copy, Debug, PartialEq, Eq)]
pub struct MalformedMessage {}

/// Whether a value is the text string `key`.
fn is_text(v: &Value, key: &str) -> (yes: bool)
    ensures
        yes <==> model(*v) == Cbor::Text(key@),
{
    match v {
        Value::Text(s) => {
            let wanted = key.to_owned();
            *s == wanted
        },
        _ => false,
    }
}

/// The byte that a value stands for, if it is an integer that fits one.
fn byte_of(v: &Value) -> (out: Option<u8>)
    ensures
        match out {
            Some(b) => model(*v) == Cbor::Integer(b as int),
            None => !is_byte(model(*v)),
        },
{
    match v {
        Value::Integer(i) => {
            let n = integer_number(i);
            if 0 <= n && n <= 255 {
                Some(n as u8)
            } else {
                None
            }
        },
        _ => None,
    }
}

impl NodeId {
    /// The CBOR value that stands for this identifier.
    pub fn to_value(&self) -> (out: Value)
        ensures
            model(out) == id_cbor(self@),
    {
        let mut items: Vec<Value> = Vec::new();
        let mut i: usize = 0;
        while i < 32
            invariant
                i <= 32,
                items@.len() == i,
                forall|j: int| 0 <= j < i ==> model(#[trigger] items@[j]) == Cbor::Integer(self@[j] as int),
            decreases 32 - i,
        {
            let b: u8 = self.bytes[i];
            items.push(Value::Integer(integer_of(b as u64)));
            i += 1;
        }
        let out = Value::Array(items);
        assert(model(out)->Array_0 =~= id_cbor(self@)->Array_0);
        out
    }

    /// The identifier that a CBOR value stands for: `Some` exactly for an
    /// array of 32 integers that each fit a byte.
    pub fn from_value(v: &Value) -> (out: Option<NodeId>)
        ensures
            match out {
                Some(id) => is_id(model(*v)) && id@ == id_of(model(*v)),
                None => !is_id(model(*v)),
            },
    {
        match v {
            Value::Array(items) => {
                if items.len() != 32 {
                    return None;
                }
                let ghost read = model(*v)->Array_0;
                let mut bytes: [u8; 32] = [0u8; 32];
                let mut i: usize = 0;
                while i < 32
                    invariant
                        i <= 32,
                        items@.len() == 32,
                        model(*v) == Cbor::Array(read),
                        read.len() == 32,
                        forall|j: int| 0 <= j < 32 ==> read[j] == model(#[trigger] items@[j]),
                        forall|j: int| 0 <= j < i ==> read[j] == Cbor::Integer(#[trigger] bytes@[j] as int),
                    decreases 32 - i,
                {
                    match byte_of(&items[i]) {
                        Some(b) => {
                            bytes[i] = b;
                        },
                        None => {
                            assert(!is_byte(read[i as int]));
                            return None;
                        },
                    }
                    i += 1;
                }
                let id = NodeId { bytes };
                assert forall|j: int| 0 <= j < 32 implies is_byte(#[trigger] read[j]) by {
                    assert(read[j] == Cbor::Integer(bytes@[j] as int));
                }
                assert(id@ =~= id_of(model(*v)));
                Some(id)
            },
            _ => None,
        }
    }
}

impl Node {
    /// The CBOR value that stands for this announcement.
    pub fn to_value(&self) -> (out: Value)
        ensures
            model(out) == announcement_cbor(self@),
    {
        let name_key = Value::Text("name".to_owned());
        let name = Value::Text(self.name.clone());
        let id_key = Value::Text("node_id".to_owned());
        let id = self.node_id.to_value();
        let count_key = Value::Text("count".to_owned());
        let count = Value::Integer(integer_of(self.count as u64));
        assert(model(name_key) == Cbor::Text("name"@));
        assert(model(name) == Cbor::Text(self@.name));
        assert(model(id_key) == Cbor::Text("node_id"@));
        assert(model(count_key) == Cbor::Text("count"@));
        assert(model(count) == Cbor::Integer(self@.count as int));
        let mut entries: Vec<(Value, Value)> = Vec::new();
        entries.push((name_key, name));
        entries.push((id_key, id));
        entries.push((count_key, count));
        let out = Value::Map(entries);
        assert(model(out)->Table_0 =~= announcement_cbor(self@)->Table_0);
        out
    }

    /// The announcement that a CBOR value stands for. It is one exactly if
    /// the value is a map of the three entries `name`, `node_id` and `count`,
    /// in this order, with a text string, an array of 32 bytes and an integer
    /// that fits a `u32`.
    pub fn from_value(v: &Value) -> (out: Result<Node, MalformedMessage>)
        ensures
            match announcement_of(model(*v)) {
                Some(a) => out matches Ok(node) && node@ == a,
                None => out is Err,
            },
    {
        let entries = match v {
            Value::Map(entries) => entries,
            _ => {
                return Err(MalformedMessage {  });
            },
        };
        if entries.len() != 3 {
            return Err(MalformedMessage {  });
        }
        let ghost read = model(*v)->Table_0;
        assert(read[0] == (model(entries@[0].0), model(entries@[0].1)));
        assert(read[1] == (model(entries@[1].0), model(entries@[1].1)));
        assert(read[2] == (model(entries@[2].0), model(entries@[2].1)));
        if !is_text(&entries[0].0, "name") || !is_text(&entries[1].0, "node_id") || !is_text(
            &entries[2].0,
            "count",
        ) {
            return Err(MalformedMessage {  });
        }
        let name = match &entries[0].1 {
            Value::Text(s) => s.clone(),
            _ => {
                return Err(MalformedMessage {  });
            },
        };
        let node_id = match NodeId::from_value(&entries[1].1) {
            Some(id) => id,
            None => {
                return Err(MalformedMessage {  });
            },
        };
        let count = match &entries[2].1 {
            Value::Integer(i) => {
                let n = integer_number(i);
                if 0 <= n && n <= 0xffff_ffff {
                    n as u32
                } else {
                    return Err(MalformedMessage {  });
                }
            },
            _ => {
                return Err(MalformedMessage {  });
            },
        };
        Ok(Node { name, node_id, count })
    }

    /// Reads a payload. It is an announcement exactly if `ciborium` reads a
    /// value from it and that value stands for one.
    pub fn decode(payload: &[u8]) -> (out: Result<Node, MalformedMessage>)
        ensures
            match decoded_announcement(payload@) {
                Some(a) => out matches Ok(node) && node@ == a,
                None => out is Err,
            },
    {
        match cbor_read(payload) {
            Some(v) => Node::from_value(&v),
            None => Err(MalformedMessage {  }),
        }
    }

    /// Given what was written for this announcement, the payload to hand
    /// out: the bytes, if they are read back as this announcement.
    pub fn sealed(&self, written: Option<Vec<u8>>) -> (out: Option<Vec<u8>>)
        ensures
            match out {
                Some(payload) => written == Some(payload) && decoded_announcement(payload@)
                    == Some(self@),
                None => written matches Some(bytes) ==> decoded_announcement(bytes@) != Some(
                    self@,
                ),
            },
    {
        match written {
            Some(bytes) => {
                let kept = match Node::decode(bytes.as_slice()) {
                    Ok(read) => self.same(&read),
                    Err(_) => false,
                };
                if kept {
                    Some(bytes)
                } else {
                    None
                }
            },
            None => None,
        }
    }

    /// The payload of this announcement. The bytes are read once more before
    /// they are handed out, so that a payload is never one that `decode`
    /// would refuse or read as another announcement.
    pub fn encode(&self) -> (out: Option<Vec<u8>>)
        ensures
            match out {
                Some(payload) => encoded_announcement(self@) == Some(payload@),
                None => encoded_announcement(self@) is None,
            },
    {
        let v = self.to_value();
        self.sealed(cbor_write(&v))
    }
}

} // verus!
