//! The concurrent containers behind a wall: a sharded map, a per-chunk lock
//! and a bounded broadcast channel.

use vstd::prelude::*;

use std::hash::Hash;
use std::sync::Arc;

use dashmap::DashMap;
use tokio::sync::broadcast::{self, Receiver, Sender};
use tokio::sync::Mutex;

use crate::chunk::{chunk_side_valid, Chunk};
use crate::ids::SessionId;
use crate::session::{EventKind, Online, Session};
use crate::spatial::ChunkPosition;

verus! {

#[verifier::external_type_specification]
#[verifier::external_body]
#[verifier::reject_recursive_types(K)]
#[verifier::reject_recursive_types(V)]
#[verifier::reject_recursive_types(S)]
pub struct ExDashMap<K, V, S>(DashMap<K, V, S>);

#[verifier::external_type_specification]
#[verifier::external_body]
#[verifier::reject_recursive_types(T)]
pub struct ExMutex<T: ?Sized>(Mutex<T>);

#[verifier::external_type_specification]
#[verifier::external_body]
#[verifier::reject_recursive_types(T)]
pub struct ExSender<T>(Sender<T>);

#[verifier::external_type_specification]
#[verifier::external_body]
#[verifier::reject_recursive_types(T)]
pub struct ExReceiver<T>(Receiver<T>);

/// Relies on dashmap::DashMap::new: an empty map.
#[verifier::external_body]
pub(crate) fn new_map<K: Eq + Hash, V>() -> DashMap<K, V> {
    DashMap::new()
}

/// Relies on dashmap::DashMap::contains_key.
#[verifier::external_body]
pub(crate) fn map_contains_key<K: Eq + Hash, V>(map: &DashMap<K, V>, key: &K) -> bool {
    map.contains_key(key)
}

/// Relies on dashmap::DashMap::get: a shared handle to the chunk stored under
/// `at`, if there is one.
#[verifier::external_body]
pub(crate) fn chunk_get(
    map: &DashMap<ChunkPosition, Arc<Mutex<Chunk>>>,
    at: &ChunkPosition,
) -> Option<Arc<Mutex<Chunk>>> {
    map.get(at).map(|c| Arc::clone(&c))
}

/// Relies on dashmap::DashMap::entry with `or_insert_with`: under the shard's
/// lock, the chunk stored under `at` is returned, or a new one of side `side`
/// is stored and returned, so racing callers all get the same chunk.
#[verifier::external_body]
pub(crate) fn chunk_get_or_insert(
    map: &DashMap<ChunkPosition, Arc<Mutex<Chunk>>>,
    at: ChunkPosition,
    side: u32,
) -> Arc<Mutex<Chunk>>
    requires
        chunk_side_valid(side),
{
    Arc::clone(&map.entry(at).or_insert_with(|| new_chunk_cell(side)))
}

/// A fresh chunk behind its own lock.
pub(crate) fn new_chunk_cell(side: u32) -> Arc<Mutex<Chunk>>
    requires
        chunk_side_valid(side),
{
    Arc::new(new_lock(Chunk::new(side)))
}

/// Relies on tokio::sync::Mutex::new: an unlocked mutex holding `value`.
#[verifier::external_body]
fn new_lock(value: Chunk) -> Mutex<Chunk> {
    Mutex::new(value)
}

/// Relies on dashmap::DashMap::insert.
#[verifier::external_body]
pub(crate) fn map_insert<K: Eq + Hash, V>(map: &DashMap<K, V>, key: K, value: V) {
    map.insert(key, value);
}

/// Relies on dashmap::DashMap::remove: whether an entry was taken out.
#[verifier::external_body]
pub(crate) fn map_remove<K: Eq + Hash, V>(map: &DashMap<K, V>, key: &K) -> bool {
    map.remove(key).is_some()
}

/// Relies on dashmap::DashMap::alter: under the shard's lock, the session
/// stored under `id`, if any, is replaced by `Session::with_event` of it.
#[verifier::external_body]
pub(crate) fn session_apply(map: &DashMap<SessionId, Session>, id: &SessionId, kind: &EventKind) {
    map.alter(id, |_, s| s.with_event(kind))
}

/// Relies on dashmap::DashMap::iter: one `Online::of` row per stored session,
/// each read under its shard's lock. A key lives in exactly one shard and the
/// walk visits each entry once, so no session id appears twice.
#[verifier::external_body]
pub(crate) fn session_rows(map: &DashMap<SessionId, Session>) -> (r: Vec<Online>)
    ensures
        forall|i: int, j: int|
            0 <= i < j < r@.len() ==> r@[i].session_id != r@[j].session_id,
{
    map.iter().map(|r| Online::of(*r.key(), r.value())).collect()
}

/// Relies on tokio::sync::broadcast::channel, which panics on a capacity of
/// zero or above `usize::MAX / 2`; the first receiver is dropped.
#[verifier::external_body]
pub(crate) fn new_channel<T: Clone>(capacity: usize) -> Sender<T>
    requires
        0 < capacity <= usize::MAX / 2,
{
    broadcast::channel(capacity).0
}

/// Relies on tokio::sync::broadcast::Sender::subscribe: a receiver of every
/// value sent from now on. It panics only once `usize::MAX >> 2` receivers
/// are alive at the same time.
#[verifier::external_body]
pub(crate) fn subscribe<T: Clone>(sender: &Sender<T>) -> Receiver<T> {
    sender.subscribe()
}

/// Relies on tokio::sync::broadcast::Sender::send, which never blocks; having
/// no receivers is not a fault here, so its error is dropped.
#[verifier::external_body]
pub(crate) fn send<T: Clone>(sender: &Sender<T>, value: T) {
    let _ = sender.send(value);
}

} // verus!
