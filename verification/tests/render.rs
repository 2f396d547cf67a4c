use tictactoe::board::{Cell, Outcome};
use tictactoe::render::{Legend, Render, Surface};
use tictactoe::session::{Direction, Player, Session};

fn player(id: u64, channel: u64) -> Player {
    Player { id, name: format!("p{}", id), channel }
}

fn passive(surface: Surface, board: [Cell; 9], legend: Legend) -> Render {
    Render { surface, board, highlight: None, legend, confirm_enabled: false }
}

#[test]
fn plan_for_a_running_game_on_separate_surfaces() {
    let mut s = Session::new(0, player(1, 10), player(2, 20));
    s.try_move(1, 4).unwrap();
    s.move_cursor(2, Direction::Right).unwrap();
    let board = s.board().cells();
    let plan = s.render_plan();
    assert_eq!(
        plan,
        vec![
            Render {
                surface: Surface::Private(2),
                board,
                highlight: Some(1),
                legend: Legend::YourTurn,
                confirm_enabled: true,
            },
            passive(Surface::Private(1), board, Legend::WaitingForTurn),
            passive(Surface::Channel(20), board, Legend::InProgress),
            passive(Surface::Channel(10), board, Legend::InProgress),
        ]
    );
    assert_eq!(s.active_render(), plan[0]);
}

#[test]
fn plan_for_a_shared_surface_has_one_channel_render() {
    let s = Session::new(0, player(1, 10), player(2, 10));
    let board = [Cell::Empty; 9];
    assert_eq!(
        s.render_plan(),
        vec![
            Render {
                surface: Surface::Private(1),
                board,
                highlight: Some(0),
                legend: Legend::YourTurn,
                confirm_enabled: true,
            },
            passive(Surface::Private(2), board, Legend::WaitingForTurn),
            passive(Surface::Channel(10), board, Legend::InProgress),
        ]
    );
}

#[test]
fn confirm_is_disabled_on_a_taken_square() {
    let mut s = Session::new(0, player(1, 10), player(2, 10));
    s.try_move(1, 1).unwrap();
    s.move_cursor(2, Direction::Right).unwrap();
    assert_eq!(s.cursor(), 1);
    let r = s.active_render();
    assert_eq!(r.highlight, Some(1));
    assert!(!r.confirm_enabled);
    s.move_cursor(2, Direction::Right).unwrap();
    assert!(s.active_render().confirm_enabled);
}

#[test]
fn plan_for_a_finished_game() {
    let mut s = Session::new(3, player(1, 10), player(2, 20));
    for (who, cell) in [(1, 4), (2, 0), (1, 1), (2, 3), (1, 7)] {
        s.try_move(who, cell).unwrap();
    }
    let board = s.board().cells();
    let legend = Legend::Finished(Outcome::Win(Cell::MarkA));
    assert_eq!(
        s.render_plan(),
        vec![
            passive(Surface::Private(1), board, legend),
            passive(Surface::Private(2), board, legend),
            passive(Surface::Channel(20), board, legend),
            passive(Surface::Channel(10), board, legend),
        ]
    );
}

#[test]
fn plan_for_a_stopped_game() {
    let mut s = Session::new(3, player(1, 10), player(2, 20));
    s.try_move(1, 4).unwrap();
    let board = s.board().cells();
    assert_eq!(
        s.stop_plan(),
        vec![
            passive(Surface::Private(1), board, Legend::Stopped),
            passive(Surface::Private(2), board, Legend::Stopped),
            passive(Surface::Channel(20), board, Legend::Stopped),
            passive(Surface::Channel(10), board, Legend::Stopped),
        ]
    );
    let shared = Session::new(0, player(1, 10), player(2, 10));
    assert_eq!(shared.stop_plan().len(), 3);
}

#[test]
fn plan_for_a_drawn_game() {
    let mut s = Session::new(0, player(1, 10), player(2, 10));
    let mut who = 1;
    for m in [0, 1, 2, 4, 3, 5, 7, 6, 8] {
        s.try_move(who, m).unwrap();
        who = 3 - who;
    }
    let board = s.board().cells();
    let legend = Legend::Finished(Outcome::Draw);
    assert_eq!(
        s.render_plan(),
        vec![
            passive(Surface::Private(1), board, legend),
            passive(Surface::Private(2), board, legend),
            passive(Surface::Channel(10), board, legend),
        ]
    );
}

#[test]
fn controls_are_live_for_the_player_to_move_only() {
    let s = Session::new(0, player(1, 10), player(2, 20));
    let plan = s.render_plan();
    assert!(plan[0].controls_enabled());
    for r in &plan[1..] {
        assert!(!r.controls_enabled());
        assert!(!r.confirm_enabled);
    }
    for r in s.stop_plan() {
        assert!(!r.controls_enabled());
    }
}
