use tictactoe::registry::SessionRegistry;
use tictactoe::session::{Player, Session};

fn player(id: u64, channel: u64) -> Player {
    Player { id, name: format!("p{}", id), channel }
}

fn session(id: u64, a: u64, b: u64) -> Session {
    Session::new(id, player(a, 1), player(b, 1))
}

#[test]
fn new_registry_is_empty() {
    let r = SessionRegistry::new();
    assert_eq!(r.len(), 0);
    assert!(!r.is_player_active(1));
    assert!(r.find_by_player(1).is_none());
    assert!(r.get(0).is_none());
    assert_eq!(r.fresh_id(), 0);
}

#[test]
fn insert_appends_in_order() {
    let mut r = SessionRegistry::new();
    assert!(r.insert(session(0, 1, 2)));
    assert!(r.insert(session(1, 3, 4)));
    assert_eq!(r.len(), 2);
    assert_eq!(r.session_at(0).id(), 0);
    assert_eq!(r.session_at(1).id(), 1);
    assert_eq!(r.position_of_player(4), Some(1));
    assert_eq!(r.position_of_player(5), None);
    assert_eq!(r.position_of_id(1), Some(1));
    assert_eq!(r.position_of_id(2), None);
}

#[test]
fn insert_refuses_used_id_and_active_players() {
    let mut r = SessionRegistry::new();
    assert!(r.insert(session(0, 1, 2)));
    assert!(!r.insert(session(0, 3, 4)));
    assert!(!r.insert(session(1, 1, 4)));
    assert!(!r.insert(session(1, 3, 2)));
    assert!(!r.insert(session(1, 2, 1)));
    assert_eq!(r.len(), 1);
    assert!(r.insert(session(1, 3, 4)));
    assert_eq!(r.len(), 2);
}

#[test]
fn lookup_by_player_finds_the_session_whatever_its_place() {
    let mut r = SessionRegistry::new();
    assert!(r.insert(session(0, 1, 2)));
    assert!(r.insert(session(1, 3, 4)));
    assert!(r.insert(session(2, 5, 6)));
    for (p, id) in [(1, 0), (2, 0), (3, 1), (4, 1), (5, 2), (6, 2)] {
        assert!(r.is_player_active(p));
        assert_eq!(r.find_by_player(p).map(|s| s.id()), Some(id));
    }
    assert!(!r.is_player_active(7));
    assert!(r.find_by_player(7).is_none());
    assert_eq!(r.get(1).map(|s| s.first().id), Some(3));
    assert!(r.get(3).is_none());
}

#[test]
fn remove_takes_out_exactly_that_session() {
    let mut r = SessionRegistry::new();
    assert!(r.insert(session(0, 1, 2)));
    assert!(r.insert(session(1, 3, 4)));
    assert!(r.insert(session(2, 5, 6)));
    let gone = r.remove(1);
    assert_eq!(gone, Some(session(1, 3, 4)));
    assert_eq!(r.len(), 2);
    assert_eq!(r.session_at(0).id(), 0);
    assert_eq!(r.session_at(1).id(), 2);
    assert!(!r.is_player_active(3));
    assert!(!r.is_player_active(4));
    assert!(r.is_player_active(1));
    assert!(r.is_player_active(6));
    assert_eq!(r.remove(1), None);
    assert_eq!(r.len(), 2);
}

#[test]
fn fresh_id_is_the_smallest_unused() {
    let mut r = SessionRegistry::new();
    assert!(r.insert(session(0, 1, 2)));
    assert_eq!(r.fresh_id(), 1);
    assert!(r.insert(session(1, 3, 4)));
    assert!(r.insert(session(2, 5, 6)));
    assert_eq!(r.fresh_id(), 3);
    r.remove(1);
    assert_eq!(r.fresh_id(), 1);
    r.remove(0);
    assert_eq!(r.fresh_id(), 0);
    assert!(r.insert(session(7, 8, 9)));
    assert_eq!(r.fresh_id(), 0);
}
