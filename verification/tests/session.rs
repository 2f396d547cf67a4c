use tictactoe::board::{Cell, Outcome};
use tictactoe::session::{Direction, Player, Session, SessionError, SurfaceLayout, Turn};

fn player(id: u64, name: &str, channel: u64) -> Player {
    Player { id, name: name.to_string(), channel }
}

fn session() -> Session {
    Session::new(7, player(1, "Ann", 10), player(2, "Bob", 20))
}

#[test]
fn new_session_starts_with_first_player() {
    let s = session();
    assert_eq!(s.id(), 7);
    assert_eq!(s.first().id, 1);
    assert_eq!(s.first().name, "Ann");
    assert_eq!(s.second().id, 2);
    assert_eq!(s.turn(), Turn::First);
    assert_eq!(s.cursor(), 0);
    assert_eq!(s.active_player(), 1);
    assert_eq!(s.waiting_player(), 2);
    assert_eq!(s.outcome(), Outcome::InProgress);
    assert_eq!(s.board().cells(), [Cell::Empty; 9]);
    assert_eq!(s.layout(), SurfaceLayout::Separate);
}

#[test]
fn layout_is_shared_for_one_channel() {
    let s = Session::new(0, player(1, "Ann", 10), player(2, "Bob", 10));
    assert_eq!(s.layout(), SurfaceLayout::Shared);
}

#[test]
fn is_participant_knows_both_seats_only() {
    let s = session();
    assert!(s.is_participant(1));
    assert!(s.is_participant(2));
    assert!(!s.is_participant(3));
    assert!(!s.is_participant(7));
}

#[test]
fn try_move_places_flips_and_resets_cursor() {
    let mut s = session();
    assert_eq!(s.try_move(1, 4), Ok(Outcome::InProgress));
    assert_eq!(s.board().cell(4), Some(Cell::MarkA));
    assert_eq!(s.turn(), Turn::Second);
    assert_eq!(s.active_player(), 2);
    assert_eq!(s.cursor(), 0);
    assert_eq!(s.try_move(2, 0), Ok(Outcome::InProgress));
    assert_eq!(s.board().cell(0), Some(Cell::MarkB));
    assert_eq!(s.turn(), Turn::First);
    assert_eq!(s.cursor(), 1);
}

#[test]
fn try_move_not_your_turn() {
    let mut s = session();
    let before = s.clone();
    assert_eq!(s.try_move(2, 4), Err(SessionError::NotYourTurn));
    assert_eq!(s.try_move(3, 4), Err(SessionError::NotYourTurn));
    // The turn is checked before the square.
    assert_eq!(s.try_move(2, 9), Err(SessionError::NotYourTurn));
    assert_eq!(s, before);
}

#[test]
fn try_move_cell_occupied() {
    let mut s = session();
    assert_eq!(s.try_move(1, 4), Ok(Outcome::InProgress));
    let before = s.clone();
    assert_eq!(s.try_move(2, 4), Err(SessionError::CellOccupied));
    assert_eq!(s, before);
}

#[test]
fn try_move_invalid_cell() {
    let mut s = session();
    let before = s.clone();
    assert_eq!(s.try_move(1, 9), Err(SessionError::InvalidCell));
    assert_eq!(s, before);
}

#[test]
fn try_move_after_the_end_fails_with_session_ended() {
    let mut s = session();
    for (who, cell) in [(1, 4), (2, 0), (1, 1), (2, 3)] {
        assert_eq!(s.try_move(who, cell), Ok(Outcome::InProgress));
    }
    assert_eq!(s.try_move(1, 7), Ok(Outcome::Win(Cell::MarkA)));
    assert_eq!(s.outcome(), Outcome::Win(Cell::MarkA));
    let before = s.clone();
    assert_eq!(s.try_move(2, 2), Err(SessionError::SessionEnded));
    assert_eq!(s.try_move(1, 2), Err(SessionError::SessionEnded));
    assert_eq!(s.try_move(1, 9), Err(SessionError::SessionEnded));
    assert_eq!(s, before);
}

#[test]
fn try_move_to_a_draw() {
    let mut s = session();
    let moves = [0, 1, 2, 4, 3, 5, 7, 6];
    let mut who = 1;
    for m in moves {
        assert_eq!(s.try_move(who, m), Ok(Outcome::InProgress));
        who = 3 - who;
    }
    assert_eq!(s.cursor(), 8);
    assert_eq!(s.try_move(1, 8), Ok(Outcome::Draw));
    // On a full board the cursor rests on square 0.
    assert_eq!(s.cursor(), 0);
    assert_eq!(s.try_move(2, 0), Err(SessionError::SessionEnded));
}

#[test]
fn cursor_wraps_from_corner() {
    let mut s = session();
    assert_eq!(s.move_cursor(1, Direction::Left), Ok(2));
    assert_eq!(s.cursor(), 2);
    let mut s = session();
    assert_eq!(s.move_cursor(1, Direction::Up), Ok(6));
    assert_eq!(s.cursor(), 6);
}

#[test]
fn cursor_moves_as_the_table_says() {
    // For each start square: up, down, left, right.
    let table: [[usize; 4]; 9] = [
        [6, 3, 2, 1],
        [7, 4, 0, 2],
        [8, 5, 1, 0],
        [0, 6, 5, 4],
        [1, 7, 3, 5],
        [2, 8, 4, 3],
        [3, 0, 8, 7],
        [4, 1, 6, 8],
        [5, 2, 7, 6],
    ];
    let path_to = |s: &mut Session, target: usize| {
        while s.cursor() % 3 != target % 3 {
            s.move_cursor(1, Direction::Right).unwrap();
        }
        while s.cursor() / 3 != target / 3 {
            s.move_cursor(1, Direction::Down).unwrap();
        }
    };
    let directions = [Direction::Up, Direction::Down, Direction::Left, Direction::Right];
    for start in 0..9 {
        for (k, d) in directions.iter().enumerate() {
            let mut s = session();
            path_to(&mut s, start);
            assert_eq!(s.cursor(), start);
            assert_eq!(s.move_cursor(1, *d), Ok(table[start][k]));
            assert_eq!(s.cursor(), table[start][k]);
            assert_eq!(s.board().cells(), [Cell::Empty; 9]);
        }
    }
}

#[test]
fn move_cursor_not_your_turn() {
    let mut s = session();
    let before = s.clone();
    assert_eq!(s.move_cursor(2, Direction::Right), Err(SessionError::NotYourTurn));
    assert_eq!(s.move_cursor(9, Direction::Right), Err(SessionError::NotYourTurn));
    assert_eq!(s, before);
    assert_eq!(s.try_move(1, 0), Ok(Outcome::InProgress));
    assert_eq!(s.move_cursor(1, Direction::Right), Err(SessionError::NotYourTurn));
    assert_eq!(s.move_cursor(2, Direction::Right), Ok(2));
}

#[test]
fn turn_other_and_mark() {
    assert_eq!(Turn::First.other(), Turn::Second);
    assert_eq!(Turn::Second.other(), Turn::First);
    assert_eq!(Turn::First.mark(), Cell::MarkA);
    assert_eq!(Turn::Second.mark(), Cell::MarkB);
}

#[test]
fn clone_keeps_everything() {
    let mut s = session();
    s.try_move(1, 4).unwrap();
    s.move_cursor(2, Direction::Down).unwrap();
    let c = s.clone();
    assert_eq!(c, s);
    let p = player(5, "Eve", 3);
    assert_eq!(p.clone(), p);
}
