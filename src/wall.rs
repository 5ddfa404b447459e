//! The live state of one canvas: its chunk grid, its session registry and
//! its event bus, each with its own fine-grained locking.

use vstd::prelude::*;

use std::sync::atomic::{AtomicU64, AtomicUsize, Ordering};
use std::sync::Arc;

use dashmap::DashMap;
use tokio::sync::broadcast::{Receiver, Sender};
use tokio::sync::Mutex;

use crate::chunk::{chunk_side_valid, Chunk};
use crate::ids::SessionId;
use crate::session::{allocate_session_id, check_capacity, Event, EventKind, JoinError, Online, Session};
use crate::shared::{
    chunk_get, chunk_get_or_insert, map_contains_key, map_insert, map_remove, new_channel,
    new_map, send, session_apply, session_rows, subscribe,
};
use crate::spatial::{ChunkPosition, Settings};

verus! {

/// How many events a subscriber may fall behind before it loses the oldest.
pub const EVENT_BUFFER: usize = 16;

pub struct Wall {
    settings: Settings,
    chunks: DashMap<ChunkPosition, Arc<Mutex<Chunk>>>,
    sessions: DashMap<SessionId, Session>,
    /// Slots taken in the registry: one per registered session, plus one for
    /// each join between reserving its slot and inserting or giving it back.
    session_slots: AtomicUsize,
    session_id_counter: AtomicU64,
    event_sender: Sender<Event>,
}

/// What a successful join hands back: the id given to the session and a
/// subscription to every event broadcast from then on.
pub struct Joined {
    pub session_id: SessionId,
    pub event_receiver: Receiver<Event>,
}

impl Wall {
    pub closed spec fn spec_settings(&self) -> Settings {
        self.settings
    }

    pub fn new(settings: Settings) -> (r: Wall)
        ensures
            r.spec_settings() == settings,
    {
        Wall {
            settings,
            chunks: new_map(),
            sessions: new_map(),
            session_slots: AtomicUsize::new(0),
            session_id_counter: AtomicU64::new(0),
            event_sender: new_channel(EVENT_BUFFER),
        }
    }

    pub fn settings(&self) -> (r: &Settings)
        ensures
            *r == self.spec_settings(),
    {
        &self.settings
    }

    pub fn has_chunk(&self, at: ChunkPosition) -> bool {
        map_contains_key(&self.chunks, &at)
    }

    pub fn get_chunk(&self, at: ChunkPosition) -> Option<Arc<Mutex<Chunk>>> {
        chunk_get(&self.chunks, &at)
    }

    /// The chunk at `at`, created blank on first access. Creation happens
    /// once per position, also when callers race on it.
    pub fn get_or_create_chunk(&self, at: ChunkPosition) -> Arc<Mutex<Chunk>>
        requires
            chunk_side_valid(self.spec_settings().chunk_size),
    {
        chunk_get_or_insert(&self.chunks, at, self.settings.chunk_size)
    }

    /// Registers a session. A slot is reserved first, by one atomic step, so
    /// racing joins never overfill the registry and a refused session is
    /// never inserted. Whether a slot and an id are free depends on what other
    /// callers do meanwhile; the rules applied to them are `check_capacity`
    /// and `allocate_session_id`. A wall that admits no sessions refuses all.
    pub fn join(&self, session: Session) -> (r: Result<Joined, JoinError>)
        ensures
            self.spec_settings().max_sessions == 0 ==> r matches Err(
                JoinError::TooManyCurrentSessions,
            ),
    {
        let taken = self.session_slots.fetch_add(1, Ordering::AcqRel);
        match check_capacity(taken, self.settings.max_sessions) {
            Err(e) => {
                self.session_slots.fetch_sub(1, Ordering::AcqRel);
                return Err(e);
            },
            Ok(()) => {},
        }
        let raw = self.session_id_counter.fetch_add(1, Ordering::Relaxed);
        let session_id = match allocate_session_id(raw) {
            Ok(id) => id,
            Err(e) => {
                self.session_slots.fetch_sub(1, Ordering::AcqRel);
                return Err(e);
            },
        };
        map_insert(&self.sessions, session_id, session);
        Ok(Joined { session_id, event_receiver: subscribe(&self.event_sender) })
    }

    /// A point-in-time copy of every live session's visible state.
    pub fn online(&self) -> (r: Vec<Online>)
        ensures
            forall|i: int, j: int|
                0 <= i < j < r@.len() ==> r@[i].session_id != r@[j].session_id,
    {
        session_rows(&self.sessions)
    }

    /// Applies an event to its session's visible state, if the session is
    /// still registered, and broadcasts it to every subscriber.
    pub fn event(&self, event: Event) {
        session_apply(&self.sessions, &event.session_id, &event.kind);
        send(&self.event_sender, event);
    }

    /// Ends a session: removes it from the registry, then broadcasts its
    /// `Leave`.
    pub fn leave(&self, session_id: SessionId) {
        if map_remove(&self.sessions, &session_id) {
            self.session_slots.fetch_sub(1, Ordering::AcqRel);
        }
        self.event(Event { session_id, kind: EventKind::Leave });
    }
}

/// Releases a session lease given what is left of its wall: a wall that still
/// exists deregisters the session and announces its `Leave`; a wall that is
/// gone is left alone. Returns whether the wall still existed.
pub fn release_session(wall: Option<Arc<Wall>>, session_id: SessionId) -> (r: bool)
    ensures
        r == wall is Some,
{
    match wall {
        Some(w) => {
            w.leave(session_id);
            true
        },
        None => false,
    }
}

} // verus!
