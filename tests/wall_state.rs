use std::sync::Arc;

use rkgk_wall::ids::SessionId;
use rkgk_wall::session::{Event, EventKind, JoinError, Session, UserId, UserInit};
use rkgk_wall::spatial::{ChunkPosition, Settings, Vec2};
use rkgk_wall::wall::{release_session, Wall, EVENT_BUFFER};
use tokio::sync::broadcast::error::TryRecvError;

fn wall(max_sessions: usize) -> Wall {
    Wall::new(Settings { max_chunks: 64, max_sessions, paint_area: 64, chunk_size: 16 })
}

fn session(n: u8) -> Session {
    Session::new(UserId([n; 32]), UserInit { brush: format!("brush{}", n) })
}

#[test]
fn chunk_created_once() {
    let w = wall(4);
    let at = ChunkPosition::new(2, -3);
    assert!(!w.has_chunk(at));
    assert!(w.get_chunk(at).is_none());
    let a = w.get_or_create_chunk(at);
    let b = w.get_or_create_chunk(at);
    assert!(Arc::ptr_eq(&a, &b));
    assert!(w.has_chunk(at));
    assert!(Arc::ptr_eq(&a, &w.get_chunk(at).unwrap()));
    assert_eq!(a.try_lock().unwrap().pixmap.width(), 16);
    assert_eq!(a.try_lock().unwrap().side(), (16, 16));
    let c = w.get_or_create_chunk(ChunkPosition::new(2, -2));
    assert!(!Arc::ptr_eq(&a, &c));
}

#[test]
fn join_assigns_increasing_ids() {
    let w = wall(4);
    let a = w.join(session(1)).ok().unwrap();
    let b = w.join(session(2)).ok().unwrap();
    w.leave(a.session_id);
    let c = w.join(session(3)).ok().unwrap();
    assert!(a.session_id.0 < b.session_id.0);
    assert!(b.session_id.0 < c.session_id.0);
}

#[test]
fn join_refused_when_full() {
    let w = wall(1);
    let a = w.join(session(1)).ok().unwrap();
    assert!(matches!(w.join(session(2)), Err(JoinError::TooManyCurrentSessions)));
    assert_eq!(w.online().len(), 1);
    w.leave(a.session_id);
    assert!(w.join(session(3)).is_ok());
    let none = wall(0);
    assert!(matches!(none.join(session(1)), Err(JoinError::TooManyCurrentSessions)));
}

#[test]
fn online_tracks_join_and_leave() {
    let w = wall(4);
    let a = w.join(session(1)).ok().unwrap();
    let mut b = w.join(session(2)).ok().unwrap();
    let online = w.online();
    assert_eq!(online.len(), 2);
    let row = online.iter().find(|r| r.session_id == a.session_id).unwrap();
    assert_eq!(row.user_id, UserId([1; 32]));
    assert_eq!(row.brush, "brush1");
    assert_eq!(row.cursor, None);

    w.leave(a.session_id);
    assert!(w.online().iter().all(|r| r.session_id != a.session_id));
    let e = b.event_receiver.try_recv().unwrap();
    assert_eq!(e.session_id, a.session_id);
    assert!(matches!(e.kind, EventKind::Leave));
    assert!(matches!(b.event_receiver.try_recv(), Err(TryRecvError::Empty)));
}

#[test]
fn cursor_event_updates_roster_and_broadcasts() {
    let w = wall(4);
    let mut a = w.join(session(1)).ok().unwrap();
    let p = Vec2 { x: (10 as f32).to_bits(), y: (20 as f32).to_bits() };
    w.event(Event { session_id: a.session_id, kind: EventKind::Cursor { position: p } });
    assert_eq!(w.online()[0].cursor, Some(p));
    w.event(Event { session_id: a.session_id, kind: EventKind::SetBrush { brush: "x".to_string() } });
    w.event(Event { session_id: a.session_id, kind: EventKind::Plot { points: vec![p] } });
    let row = &w.online()[0];
    assert_eq!(row.cursor, Some(p));
    assert_eq!(row.brush, "brush1");
    assert!(matches!(a.event_receiver.try_recv().unwrap().kind, EventKind::Cursor { .. }));
    assert!(matches!(a.event_receiver.try_recv().unwrap().kind, EventKind::SetBrush { .. }));
    assert!(matches!(a.event_receiver.try_recv().unwrap().kind, EventKind::Plot { .. }));
}

#[test]
fn event_for_unknown_session_is_still_broadcast() {
    let w = wall(4);
    let mut a = w.join(session(1)).ok().unwrap();
    let ghost = SessionId(999);
    w.event(Event { session_id: ghost, kind: EventKind::Cursor { position: Vec2 { x: (1 as f32).to_bits(), y: (1 as f32).to_bits() } } });
    assert_eq!(w.online().len(), 1);
    assert_eq!(w.online()[0].cursor, None);
    assert_eq!(a.event_receiver.try_recv().unwrap().session_id, ghost);
}

#[test]
fn event_without_subscribers_is_fine() {
    let w = wall(4);
    w.event(Event { session_id: SessionId(0), kind: EventKind::Leave });
    w.leave(SessionId(5));
    assert!(w.online().is_empty());
}

#[test]
fn lagging_subscriber_is_told() {
    let w = wall(4);
    let mut a = w.join(session(1)).ok().unwrap();
    for i in 0..(EVENT_BUFFER as i32 + 4) {
        w.event(Event { session_id: a.session_id, kind: EventKind::Cursor { position: Vec2 { x: (i as f32).to_bits(), y: (0 as f32).to_bits() } } });
    }
    assert!(matches!(a.event_receiver.try_recv(), Err(TryRecvError::Lagged(4))));
    let next = a.event_receiver.try_recv().unwrap();
    match next.kind {
        EventKind::Cursor { position } => assert_eq!(f32::from_bits(position.x), 4.0),
        _ => panic!("expected a cursor event"),
    }
}

#[test]
fn release_after_wall_is_gone_is_a_no_op() {
    let w = Arc::new(wall(4));
    let mut a = w.join(session(1)).ok().unwrap();
    let weak = Arc::downgrade(&w);
    drop(w);
    assert!(!release_session(weak.upgrade(), a.session_id));
    assert!(matches!(a.event_receiver.try_recv(), Err(TryRecvError::Closed)));
}

#[test]
fn release_with_live_wall_leaves_once() {
    let w = Arc::new(wall(4));
    let a = w.join(session(1)).ok().unwrap();
    let mut b = w.join(session(2)).ok().unwrap();
    assert!(release_session(Some(Arc::clone(&w)), a.session_id));
    assert_eq!(w.online().len(), 1);
    let e = b.event_receiver.try_recv().unwrap();
    assert_eq!(e.session_id, a.session_id);
    assert!(matches!(e.kind, EventKind::Leave));
    assert!(matches!(b.event_receiver.try_recv(), Err(TryRecvError::Empty)));
}

#[test]
fn fractional_positions_pass_through_unchanged() {
    let w = wall(4);
    let mut a = w.join(session(1)).ok().unwrap();
    let p = Vec2 { x: 10.25f32.to_bits(), y: (-3.5f32).to_bits() };
    let stroke = vec![p, Vec2 { x: 0.125f32.to_bits(), y: 7.75f32.to_bits() }];
    w.event(Event { session_id: a.session_id, kind: EventKind::Cursor { position: p } });
    w.event(Event { session_id: a.session_id, kind: EventKind::Plot { points: stroke.clone() } });
    let cursor = w.online()[0].cursor.unwrap();
    assert_eq!(f32::from_bits(cursor.x), 10.25);
    assert_eq!(f32::from_bits(cursor.y), -3.5);
    assert!(matches!(a.event_receiver.try_recv().unwrap().kind, EventKind::Cursor { position } if position == p));
    match a.event_receiver.try_recv().unwrap().kind {
        EventKind::Plot { points } => assert_eq!(points, stroke),
        _ => panic!("expected a plot event"),
    }
}

#[test]
fn online_rows_have_distinct_ids() {
    let w = wall(8);
    let joined: Vec<_> = (1..=5).map(|n| w.join(session(n)).ok().unwrap()).collect();
    let rows = w.online();
    assert_eq!(rows.len(), 5);
    for (i, r) in rows.iter().enumerate() {
        for s in &rows[i + 1..] {
            assert_ne!(r.session_id, s.session_id);
        }
        assert!(joined.iter().any(|j| j.session_id == r.session_id));
    }
}

#[test]
fn new_chunk_has_requested_side() {
    let c = rkgk_wall::chunk::Chunk::new(256);
    assert_eq!(c.side(), (256, 256));
    assert_eq!((c.pixmap.width(), c.pixmap.height()), (256, 256));
    assert!(rkgk_wall::chunk::is_valid_chunk_side(1));
    assert!(!rkgk_wall::chunk::is_valid_chunk_side(0));
    assert!(!rkgk_wall::chunk::is_valid_chunk_side(536_870_912));
}

#[test]
fn refused_join_is_never_registered() {
    let w = wall(2);
    let a = w.join(session(1)).ok().unwrap();
    let _b = w.join(session(2)).ok().unwrap();
    assert!(matches!(w.join(session(3)), Err(JoinError::TooManyCurrentSessions)));
    assert_eq!(w.online().len(), 2);
    assert!(w.online().iter().all(|r| r.user_id != UserId([3; 32])));
    w.leave(a.session_id);
    w.leave(a.session_id);
    let _c = w.join(session(3)).ok().unwrap();
    assert!(matches!(w.join(session(4)), Err(JoinError::TooManyCurrentSessions)));
}
