//! Participants: their visible state, the events they exchange, and the
//! rules by which events change that state.

use vstd::prelude::*;

use crate::ids::SessionId;
use crate::spatial::Vec2;

verus! {

/// Opaque identity of an authenticated user, compared and stored by value.
#[derive(Debug, Clone, Copy, PartialEq, Eq, Hash)]
pub struct UserId(pub [u8; 32]);

/// What a participant supplies when joining.
#[derive(Debug, Clone, PartialEq, Eq)]
pub struct UserInit {
    /// A brush is required up front, so that a participant always has one.
    pub brush: String,
}

/// Server-side record of one connected participant.
pub struct Session {
    pub user_id: UserId,
    pub cursor: Option<Vec2>,
    pub brush: String,
}

/// A state change, broadcast to every participant of a canvas.
#[derive(Debug, Clone)]
pub struct Event {
    pub session_id: SessionId,
    pub kind: EventKind,
}

#[derive(Debug, Clone)]
pub enum EventKind {
    Join { nickname: String, init: UserInit },
    Leave,
    Cursor { position: Vec2 },
    SetBrush { brush: String },
    Plot { points: Vec<Vec2> },
}

/// One row of a roster snapshot.
#[derive(Debug, Clone)]
pub struct Online {
    pub session_id: SessionId,
    pub user_id: UserId,
    pub cursor: Option<Vec2>,
    pub brush: String,
}

#[derive(Debug, Clone, Copy, PartialEq, Eq, Structural)]
pub enum JoinError {
    TooManyCurrentSessions,
    IdsExhausted,
}

/// The cursor a session shows after an event of the given kind: only a
/// cursor move changes it.
pub open spec fn cursor_after(cursor: Option<Vec2>, kind: EventKind) -> Option<Vec2> {
    match kind {
        EventKind::Cursor { position } => Some(position),
        _ => cursor,
    }
}

impl Session {
    pub fn new(user_id: UserId, user_init: UserInit) -> (r: Session)
        ensures
            r.user_id == user_id,
            r.cursor is None,
            r.brush@ == user_init.brush@,
    {
        Session { user_id, cursor: None, brush: user_init.brush }
    }

    /// The session as it stands after an event of the given kind. Join and
    /// Leave take effect when a session is registered or released; brush
    /// changes and plots are applied by the drawing path, not here.
    pub fn with_event(self, kind: &EventKind) -> (r: Session)
        ensures
            r.user_id == self.user_id,
            r.cursor == cursor_after(self.cursor, *kind),
            r.brush@ == self.brush@,
    {
        let mut s = self;
        match kind {
            EventKind::Cursor { position } => {
                s.cursor = Some(*position);
            },
            EventKind::Join { .. } | EventKind::Leave => {},
            EventKind::SetBrush { .. } | EventKind::Plot { .. } => {},
        }
        s
    }
}

impl Online {
    /// The roster row of a session.
    pub fn of(session_id: SessionId, session: &Session) -> (r: Online)
        ensures
            r.session_id == session_id,
            r.user_id == session.user_id,
            r.cursor == session.cursor,
            r.brush@ == session.brush@,
    {
        Online {
            session_id,
            user_id: session.user_id,
            cursor: session.cursor,
            brush: session.brush.clone(),
        }
    }
}

/// The session id that counter value `raw` stands for, if it fits.
pub open spec fn session_id_for(raw: int) -> Option<SessionId> {
    if 0 <= raw <= u32::MAX {
        Some(SessionId(raw as u32))
    } else {
        None
    }
}

/// Turns a value drawn from the session counter into an id; values past the
/// id space are refused rather than wrapped onto ids already handed out.
pub fn allocate_session_id(raw: u64) -> (r: Result<SessionId, JoinError>)
    ensures
        match session_id_for(raw as int) {
            Some(id) => r == Ok::<SessionId, JoinError>(id),
            None => r == Err::<SessionId, JoinError>(JoinError::IdsExhausted),
        },
{
    if raw <= u32::MAX as u64 {
        Ok(SessionId(raw as u32))
    } else {
        Err(JoinError::IdsExhausted)
    }
}

/// Admission rule: a session may join while fewer than `max_sessions` are live.
pub fn check_capacity(live_sessions: usize, max_sessions: usize) -> (r: Result<(), JoinError>)
    ensures
        r is Ok <==> live_sessions < max_sessions,
        r is Err ==> r == Err::<(), JoinError>(JoinError::TooManyCurrentSessions),
{
    if live_sessions < max_sessions {
        Ok(())
    } else {
        Err(JoinError::TooManyCurrentSessions)
    }
}

/// Distinct counter values give distinct ids, and a later value a larger id.
pub proof fn lemma_session_ids_increase(a: int, b: int)
    requires
        a < b,
        session_id_for(a) is Some,
        session_id_for(b) is Some,
    ensures
        session_id_for(a)->Some_0.0 < session_id_for(b)->Some_0.0,
{
}

/// A cursor event moves the cursor to its position; brush changes and plots
/// leave the visible state as it was.
pub proof fn lemma_event_effects(cursor: Option<Vec2>, p: Vec2, brush: String, points: Vec<Vec2>)
    ensures
        cursor_after(cursor, EventKind::Cursor { position: p }) == Some(p),
        cursor_after(cursor, EventKind::SetBrush { brush }) == cursor,
        cursor_after(cursor, EventKind::Plot { points }) == cursor,
{
}

} // verus!
