//! The neighbor map: for each name seen, the identifier announced last.
//!
//! The map is a `DashMap`, so that the program which hosts the tracker can
//! read it from other tasks while the tracker writes. Here only the tracker
//! holds it, and every write goes through an exclusive borrow.
//!
//! What is said here of the entries of a map holds of a map that nothing
//! else writes to. So the functions below that read or write are called on
//! the tracker's own handle only, never on a handle that was handed out: the
//! tracker writes to the map behind such a handle after it was handed out.

use crate::node::NodeId;
use dashmap::DashMap;
use std::sync::Arc;
use vstd::prelude::*;

verus! {

/// `dashmap::DashMap`, whose content only `dashmap` reads.
#[verifier::external_type_specification]
#[verifier::external_body]
#[verifier::reject_recursive_types(K)]
#[verifier::reject_recursive_types(V)]
#[verifier::reject_recursive_types(S)]
pub struct ExDashMap<K, V, S>(DashMap<K, V, S>);

/// The entries that a neighbor map holds: for each name, the bytes of the
/// identifier stored under it.
pub uninterp spec fn neighbor_entries(m: DashMap<String, NodeId>) -> Map<Seq<char>, Seq<u8>>;

/// The entries that the map behind a handle held at the moment when the
/// handle was made from another. What the map holds later, no value of this
/// name says.
pub uninterp spec fn entries_shared(handle: Arc<DashMap<String, NodeId>>) -> Map<
    Seq<char>,
    Seq<u8>,
>;

/// Calls `Arc::clone`, which gives one more pointer to the same allocation:
/// the handle that comes back is on the map that the handle given is on, so
/// it is made on a map with the entries of that map.
#[verifier::external_body]
pub(crate) fn map_share(m: &Arc<DashMap<String, NodeId>>) -> (shared: Arc<DashMap<String, NodeId>>)
    ensures
        entries_shared(shared) == neighbor_entries(**m),
{
    Arc::clone(m)
}

/// Calls `DashMap::new`, which gives a map without entries.
#[verifier::external_body]
pub(crate) fn map_new() -> (fresh: DashMap<String, NodeId>)
    ensures
        neighbor_entries(fresh).dom() == Set::<Seq<char>>::empty(),
{
    DashMap::new()
}

/// Calls `DashMap::contains_key`, which says whether the map holds the key.
#[verifier::external_body]
pub(crate) fn map_contains(m: &Arc<DashMap<String, NodeId>>, name: &String) -> (held: bool)
    ensures
        held == neighbor_entries(**m).contains_key(name@),
{
    m.contains_key(name)
}

/// Calls `DashMap::get` and copies the value out of the guard it returns:
/// the value stored under the key, if the map holds the key.
#[verifier::external_body]
pub(crate) fn map_get(m: &Arc<DashMap<String, NodeId>>, name: &String) -> (found: Option<NodeId>)
    ensures
        match found {
            Some(id) => neighbor_entries(**m).contains_key(name@) && neighbor_entries(**m)[name@]
                == id@,
            None => !neighbor_entries(**m).contains_key(name@),
        },
{
    m.get(name).map(|entry| *entry.value())
}

/// Calls `DashMap::insert`, which stores the value under the key, in place
/// of the value that was there if the map held the key, and leaves every
/// other entry as it was.
#[verifier::external_body]
pub(crate) fn map_insert(m: &mut Arc<DashMap<String, NodeId>>, name: String, id: NodeId)
    ensures
        neighbor_entries(**final(m)) == neighbor_entries(**old(m)).insert(name@, id@),
{
    m.insert(name, id);
}

} // verus!
