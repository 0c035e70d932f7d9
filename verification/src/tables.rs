//! The two concurrent maps of the transport, behind contracts over what they
//! hold. Every function that changes a map borrows it mutably, so that no other
//! call and no reference into the map is under way.

use dashmap::DashMap;
use vstd::prelude::*;
use crate::message::{JsonRpcNotification, NotificationView};

verus! {

/// The concurrent map of the `dashmap` crate.
#[verifier::external_type_specification]
#[verifier::external_body]
#[verifier::reject_recursive_types(K)]
#[verifier::reject_recursive_types(V)]
#[verifier::reject_recursive_types(S)]
pub struct ExDashMap<K, V, S>(dashmap::DashMap<K, V, S>);

/// The callers that wait for an answer: the key of each request, with the number
/// of its caller.
pub uninterp spec fn waiting(map: DashMap<String, u64>) -> Map<Seq<char>, u64>;

/// The notifications that were kept: each registered token, with what arrived
/// for it, the oldest first.
pub uninterp spec fn captured(map: DashMap<String, Vec<JsonRpcNotification>>) -> Map<
    Seq<char>,
    Seq<NotificationView>,
>;

/// What notifications are in contracts.
pub open spec fn notification_views(list: Seq<JsonRpcNotification>) -> Seq<NotificationView> {
    list.map_values(|n: JsonRpcNotification| n@)
}

/// Calls `DashMap::new`. Claimed: a new map holds nothing.
#[verifier::external_body]
pub(crate) fn new_waiting() -> (fresh: DashMap<String, u64>)
    ensures
        waiting(fresh) == (Map::<Seq<char>, u64>::empty()),
{
    DashMap::new()
}

/// Calls `DashMap::insert`. Claimed: the key then has the value, whatever it had
/// before, and every other key has what it had.
#[verifier::external_body]
pub(crate) fn insert_waiting(map: &mut DashMap<String, u64>, key: String, caller: u64)
    ensures
        waiting(*final(map)) == waiting(*old(map)).insert(key@, caller),
{
    map.insert(key, caller);
}

/// Calls `DashMap::remove`. Claimed: it hands out the value of the key, if the
/// key is there, and takes that key out and no other.
#[verifier::external_body]
pub(crate) fn remove_waiting(map: &mut DashMap<String, u64>, key: &str) -> (caller: Option<u64>)
    ensures
        waiting(*final(map)) == waiting(*old(map)).remove(key@),
        caller == (if waiting(*old(map)).contains_key(key@) {
            Some(waiting(*old(map))[key@])
        } else {
            None
        }),
{
    map.remove(key).map(|entry| entry.1)
}

/// Calls `DashMap::new`. Claimed: a new map holds nothing.
#[verifier::external_body]
pub(crate) fn new_captured() -> (fresh: DashMap<String, Vec<JsonRpcNotification>>)
    ensures
        captured(fresh) == (Map::<Seq<char>, Seq<NotificationView>>::empty()),
{
    DashMap::new()
}

/// Calls `DashMap::insert`. Claimed: the key then has the value, whatever it had
/// before, and every other key has what it had.
#[verifier::external_body]
pub(crate) fn insert_captured(
    map: &mut DashMap<String, Vec<JsonRpcNotification>>,
    token: String,
    list: Vec<JsonRpcNotification>,
)
    ensures
        captured(*final(map)) == captured(*old(map)).insert(token@, notification_views(list@)),
{
    map.insert(token, list);
}

/// Calls `DashMap::remove`. Claimed: it hands out the value of the key, if the
/// key is there, and takes that key out and no other.
#[verifier::external_body]
pub(crate) fn remove_captured(
    map: &mut DashMap<String, Vec<JsonRpcNotification>>,
    token: &str,
) -> (list: Option<Vec<JsonRpcNotification>>)
    ensures
        captured(*final(map)) == captured(*old(map)).remove(token@),
        match list {
            Some(l) => captured(*old(map)).contains_key(token@) && notification_views(l@)
                == captured(*old(map))[token@],
            None => !captured(*old(map)).contains_key(token@),
        },
{
    map.remove(token).map(|entry| entry.1)
}

} // verus!
