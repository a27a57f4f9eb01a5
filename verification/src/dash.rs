//! The boundary to `dashmap`: the concurrent map that backs every registry.
//!
//! Nothing in this file is proved. Each function here makes one call into
//! `dashmap` and states what that call does to the map's contents. A
//! `DashMap` mutates through a shared reference; the functions below take
//! `&mut` where the contents change, so that a registry that owns its map is
//! the only one to change it.

use crate::identity::{UserIdentity, Userinfo};
use dashmap::DashMap;
use tokio::sync::broadcast::Sender;
use vstd::prelude::*;

verus! {

#[verifier::external_type_specification]
#[verifier::external_body]
#[verifier::reject_recursive_types(K)]
#[verifier::reject_recursive_types(V)]
#[verifier::reject_recursive_types(S)]
pub struct ExDashMap<K, V, S>(DashMap<K, V, S>);

/// The entries of a map from session hash to claimed username.
pub uninterp spec fn pending_entries(map: DashMap<String, String>) -> Map<Seq<char>, Seq<char>>;

/// `DashMap::new`: a map with no entries.
#[verifier::external_body]
pub(crate) fn pending_new() -> (map: DashMap<String, String>)
    ensures
        pending_entries(map) == (Map::<Seq<char>, Seq<char>>::empty()),
{
    DashMap::new()
}

/// `DashMap::insert`: afterwards `key` maps to `value`, replacing what it
/// mapped to before, and every other entry is as it was. The value that was
/// replaced, which `insert` returns, is let go.
#[verifier::external_body]
pub(crate) fn pending_insert(map: &mut DashMap<String, String>, key: String, value: String)
    ensures
        pending_entries(*final(map)) == pending_entries(*old(map)).insert(key@, value@),
{
    map.insert(key, value);
}

/// `DashMap::remove`: afterwards `key` has no entry, and every other entry is
/// as it was. Returns the value that `key` mapped to, if it had one.
#[verifier::external_body]
pub(crate) fn pending_remove(map: &mut DashMap<String, String>, key: &str) -> (removed: Option<String>)
    ensures
        pending_entries(*final(map)) == pending_entries(*old(map)).remove(key@),
        removed.is_some() == pending_entries(*old(map)).contains_key(key@),
        removed matches Some(v) ==> v@ == pending_entries(*old(map))[key@],
{
    map.remove(key).map(|entry| entry.1)
}

/// `DashMap::contains_key`: whether `key` has an entry.
#[verifier::external_body]
pub(crate) fn pending_contains(map: &DashMap<String, String>, key: &str) -> (present: bool)
    ensures
        present == pending_entries(*map).contains_key(key@),
{
    map.contains_key(key)
}

/// `DashMap::len`: the number of entries.
#[verifier::external_body]
pub(crate) fn pending_len(map: &DashMap<String, String>) -> (count: usize)
    ensures
        count == pending_entries(*map).dom().len(),
{
    map.len()
}

/// The entries of a map from session hash to resolved identity.
pub uninterp spec fn identity_entries(map: DashMap<String, Userinfo>) -> Map<Seq<char>, UserIdentity>;

/// `DashMap::new`: a map with no entries.
#[verifier::external_body]
pub(crate) fn identity_new() -> (map: DashMap<String, Userinfo>)
    ensures
        identity_entries(map) == (Map::<Seq<char>, UserIdentity>::empty()),
{
    DashMap::new()
}

/// `DashMap::insert`: afterwards `key` maps to `value`, replacing what it
/// mapped to before, and every other entry is as it was. The value that was
/// replaced, which `insert` returns, is let go.
#[verifier::external_body]
pub(crate) fn identity_insert(map: &mut DashMap<String, Userinfo>, key: String, value: Userinfo)
    ensures
        identity_entries(*final(map)) == identity_entries(*old(map)).insert(key@, value@),
{
    map.insert(key, value);
}

/// `DashMap::get`, with the value cloned out of the guard that `get` hands
/// back: a copy of what `key` maps to, if it has an entry. The map is as it
/// was.
#[verifier::external_body]
pub(crate) fn identity_get(map: &DashMap<String, Userinfo>, key: &str) -> (found: Option<Userinfo>)
    ensures
        found.is_some() == identity_entries(*map).contains_key(key@),
        found matches Some(user) ==> user@ == identity_entries(*map)[key@],
{
    map.get(key).map(|entry| entry.value().clone())
}

/// `DashMap::remove`: afterwards `key` has no entry, and every other entry is
/// as it was. The entry that was removed, which `remove` returns, is let go.
#[verifier::external_body]
pub(crate) fn identity_remove(map: &mut DashMap<String, Userinfo>, key: &str)
    ensures
        identity_entries(*final(map)) == identity_entries(*old(map)).remove(key@),
{
    map.remove(key);
}

/// `DashMap::len`: the number of entries.
#[verifier::external_body]
pub(crate) fn identity_len(map: &DashMap<String, Userinfo>) -> (count: usize)
    ensures
        count == identity_entries(*map).dom().len(),
{
    map.len()
}

/// The keys of a map from connection identifier to the sender of that
/// connection's channel.
pub uninterp spec fn channel_ids(map: DashMap<u128, Sender<Vec<u8>>>) -> Set<u128>;

/// `DashMap::new`: a map with no entries.
#[verifier::external_body]
pub(crate) fn channels_new() -> (map: DashMap<u128, Sender<Vec<u8>>>)
    ensures
        channel_ids(map) == Set::<u128>::empty(),
{
    DashMap::new()
}

/// `DashMap::insert`: afterwards `id` has an entry, and every other key is as
/// it was. The sender that was replaced, which `insert` returns, is let go.
#[verifier::external_body]
pub(crate) fn channels_insert(map: &mut DashMap<u128, Sender<Vec<u8>>>, id: u128, sender: Sender<Vec<u8>>)
    ensures
        channel_ids(*final(map)) == channel_ids(*old(map)).insert(id),
{
    map.insert(id, sender);
}

/// `DashMap::get`, with the sender cloned out of the guard that `get` hands
/// back: another handle to the channel registered under `id`, if there is
/// one. The map is as it was.
#[verifier::external_body]
pub(crate) fn channels_get(map: &DashMap<u128, Sender<Vec<u8>>>, id: u128) -> (found: Option<Sender<Vec<u8>>>)
    ensures
        found.is_some() == channel_ids(*map).contains(id),
{
    map.get(&id).map(|entry| entry.value().clone())
}

/// `DashMap::remove`: afterwards `id` has no entry, and every other key is as
/// it was. Returns the sender that was registered under `id`, if there was
/// one.
#[verifier::external_body]
pub(crate) fn channels_remove(map: &mut DashMap<u128, Sender<Vec<u8>>>, id: u128) -> (removed: Option<Sender<Vec<u8>>>)
    ensures
        channel_ids(*final(map)) == channel_ids(*old(map)).remove(id),
        removed.is_some() == channel_ids(*old(map)).contains(id),
{
    map.remove(&id).map(|entry| entry.1)
}

/// `DashMap::len`: the number of entries.
#[verifier::external_body]
pub(crate) fn channels_len(map: &DashMap<u128, Sender<Vec<u8>>>) -> (count: usize)
    ensures
        count == channel_ids(*map).len(),
{
    map.len()
}

} // verus!
