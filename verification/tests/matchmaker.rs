use tictactoe::matchmaker::{JoinOutcome, Matchmaker, RejectReason};
use tictactoe::registry::SessionRegistry;
use tictactoe::session::{Player, Session, SurfaceLayout, Turn};

fn player(id: u64, channel: u64) -> Player {
    Player { id, name: format!("p{}", id), channel }
}

#[test]
fn first_join_waits() {
    let mut m = Matchmaker::new();
    let mut r = SessionRegistry::new();
    assert!(m.waiting().is_none());
    assert_eq!(m.request_join(&mut r, player(1, 10)), JoinOutcome::BecameWaiting);
    assert_eq!(m.waiting(), Some(&player(1, 10)));
    assert!(m.is_waiting(1));
    assert!(!m.is_waiting(2));
    assert_eq!(r.len(), 0);
}

#[test]
fn two_joins_of_distinct_players_pair_up() {
    let mut m = Matchmaker::new();
    let mut r = SessionRegistry::new();
    assert_eq!(m.request_join(&mut r, player(1, 10)), JoinOutcome::BecameWaiting);
    assert_eq!(m.request_join(&mut r, player(2, 20)), JoinOutcome::MatchedInto(0));
    assert!(m.waiting().is_none());
    assert_eq!(r.len(), 1);
    let s = r.get(0).unwrap();
    assert_eq!(s.first().id, 1);
    assert_eq!(s.second().id, 2);
    assert_eq!(s.turn(), Turn::First);
    assert_eq!(s.layout(), SurfaceLayout::Separate);
    assert_eq!(*s, Session::new(0, player(1, 10), player(2, 20)));
}

#[test]
fn two_joins_in_the_other_order_pair_up_too() {
    let mut m = Matchmaker::new();
    let mut r = SessionRegistry::new();
    assert_eq!(m.request_join(&mut r, player(2, 20)), JoinOutcome::BecameWaiting);
    assert_eq!(m.request_join(&mut r, player(1, 20)), JoinOutcome::MatchedInto(0));
    assert!(m.waiting().is_none());
    let s = r.get(0).unwrap();
    assert_eq!(s.first().id, 2);
    assert_eq!(s.second().id, 1);
    assert_eq!(s.layout(), SurfaceLayout::Shared);
}

#[test]
fn self_join_is_rejected_as_already_waiting() {
    let mut m = Matchmaker::new();
    let mut r = SessionRegistry::new();
    assert_eq!(m.request_join(&mut r, player(1, 10)), JoinOutcome::BecameWaiting);
    assert_eq!(
        m.request_join(&mut r, player(1, 30)),
        JoinOutcome::Rejected(RejectReason::AlreadyWaiting)
    );
    assert_eq!(m.waiting(), Some(&player(1, 10)));
    assert_eq!(r.len(), 0);
}

#[test]
fn active_player_is_rejected_as_already_in_game() {
    let mut m = Matchmaker::new();
    let mut r = SessionRegistry::new();
    m.request_join(&mut r, player(1, 10));
    m.request_join(&mut r, player(2, 10));
    m.request_join(&mut r, player(3, 10));
    m.request_join(&mut r, player(4, 10));
    assert_eq!(r.len(), 2);
    for p in 1..=4 {
        // With nobody waiting.
        assert_eq!(
            m.request_join(&mut r, player(p, 10)),
            JoinOutcome::Rejected(RejectReason::AlreadyInGame)
        );
        assert!(m.waiting().is_none());
    }
    assert_eq!(m.request_join(&mut r, player(5, 10)), JoinOutcome::BecameWaiting);
    for p in 1..=4 {
        // With somebody waiting.
        assert_eq!(
            m.request_join(&mut r, player(p, 10)),
            JoinOutcome::Rejected(RejectReason::AlreadyInGame)
        );
        assert_eq!(m.waiting().map(|w| w.id), Some(5));
    }
    assert_eq!(r.len(), 2);
}

#[test]
fn session_ids_are_the_smallest_unused() {
    let mut m = Matchmaker::new();
    let mut r = SessionRegistry::new();
    m.request_join(&mut r, player(1, 10));
    assert_eq!(m.request_join(&mut r, player(2, 10)), JoinOutcome::MatchedInto(0));
    m.request_join(&mut r, player(3, 10));
    assert_eq!(m.request_join(&mut r, player(4, 10)), JoinOutcome::MatchedInto(1));
    r.remove(0);
    m.request_join(&mut r, player(5, 10));
    assert_eq!(m.request_join(&mut r, player(6, 10)), JoinOutcome::MatchedInto(0));
}

#[test]
fn cancel_waiting_only_by_the_owner() {
    let mut m = Matchmaker::new();
    let mut r = SessionRegistry::new();
    assert!(!m.cancel_waiting(1));
    m.request_join(&mut r, player(1, 10));
    assert!(!m.cancel_waiting(2));
    assert!(m.is_waiting(1));
    assert!(m.cancel_waiting(1));
    assert!(m.waiting().is_none());
    assert!(!m.cancel_waiting(1));
    assert_eq!(m.request_join(&mut r, player(2, 10)), JoinOutcome::BecameWaiting);
}
