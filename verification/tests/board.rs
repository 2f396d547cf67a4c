use tictactoe::board::{line_kind, Board, Cell, InvalidMove, LineKind, Outcome};

const LINES: [[usize; 3]; 8] = [
    [0, 1, 2],
    [3, 4, 5],
    [6, 7, 8],
    [0, 3, 6],
    [1, 4, 7],
    [2, 5, 8],
    [0, 4, 8],
    [2, 4, 6],
];

/// Plays the squares in turn, starting with `MarkA`; every one must be accepted.
fn play(moves: &[usize]) -> Board {
    let mut b = Board::new();
    for &m in moves {
        let mark = b.next_mark();
        assert_eq!(b.place(m, mark), Ok(()));
    }
    b
}

/// Two squares off the line that do not make a line of their own with a third.
fn fillers(line: [usize; 3]) -> Vec<usize> {
    let mut rest: Vec<usize> = (0..9).filter(|i| !line.contains(i)).collect();
    // Reorder so that the first three of them never form a line.
    for a in 0..rest.len() {
        for b in 0..rest.len() {
            for c in 0..rest.len() {
                if a != b && b != c && a != c {
                    let mut t = [rest[a], rest[b], rest[c]];
                    t.sort();
                    if !LINES.contains(&t) {
                        let picked = vec![rest[a], rest[b], rest[c]];
                        rest.retain(|x| !picked.contains(x));
                        let mut out = picked;
                        out.extend(rest);
                        return out;
                    }
                }
            }
        }
    }
    unreachable!()
}

#[test]
fn new_board_is_empty_and_in_progress() {
    let b = Board::new();
    for i in 0..9 {
        assert_eq!(b.cell(i), Some(Cell::Empty));
    }
    assert_eq!(b.cell(9), None);
    assert_eq!(b.cells(), [Cell::Empty; 9]);
    assert_eq!(b.outcome(), Outcome::InProgress);
    assert_eq!(b.next_mark(), Cell::MarkA);
    assert_eq!(b.count(Cell::Empty), 9);
    assert_eq!(b.count(Cell::MarkA), 0);
    assert_eq!(b.first_empty(), Some(0));
    assert!(!b.is_full());
}

#[test]
fn place_sets_the_cell_and_passes_the_turn() {
    let mut b = Board::new();
    assert_eq!(b.place(4, Cell::MarkA), Ok(()));
    assert_eq!(b.cell(4), Some(Cell::MarkA));
    assert_eq!(b.count(Cell::MarkA), 1);
    assert_eq!(b.next_mark(), Cell::MarkB);
    assert_eq!(b.place(0, Cell::MarkB), Ok(()));
    assert_eq!(b.cell(0), Some(Cell::MarkB));
    assert_eq!(b.next_mark(), Cell::MarkA);
    assert_eq!(b.first_empty(), Some(1));
}

#[test]
fn place_on_occupied_cell_fails_and_leaves_board() {
    let mut b = Board::new();
    assert_eq!(b.place(4, Cell::MarkA), Ok(()));
    let before = b;
    assert_eq!(b.place(4, Cell::MarkB), Err(InvalidMove::CellOccupied));
    assert_eq!(b, before);
    assert_eq!(b.place(4, Cell::MarkB), Err(InvalidMove::CellOccupied));
    assert_eq!(b, before);
    // Occupied is reported even for the mark that is not due.
    assert_eq!(b.place(4, Cell::MarkA), Err(InvalidMove::CellOccupied));
    assert_eq!(b, before);
}

#[test]
fn place_out_of_range_fails() {
    let mut b = Board::new();
    assert_eq!(b.place(9, Cell::MarkA), Err(InvalidMove::InvalidCell));
    assert_eq!(b.place(usize::MAX, Cell::MarkA), Err(InvalidMove::InvalidCell));
    assert_eq!(b, Board::new());
}

#[test]
fn place_wrong_mark_fails() {
    let mut b = Board::new();
    assert_eq!(b.place(0, Cell::MarkB), Err(InvalidMove::WrongMark));
    assert_eq!(b.place(0, Cell::Empty), Err(InvalidMove::WrongMark));
    assert_eq!(b, Board::new());
    assert_eq!(b.place(0, Cell::MarkA), Ok(()));
    assert_eq!(b.place(1, Cell::MarkA), Err(InvalidMove::WrongMark));
    assert_eq!(b.cell(1), Some(Cell::Empty));
}

#[test]
fn every_line_set_to_mark_a_wins_for_mark_a() {
    for (k, line) in LINES.iter().enumerate() {
        let f = fillers(*line);
        let b = play(&[line[0], f[0], line[1], f[1], line[2]]);
        assert_eq!(b.outcome(), Outcome::Win(Cell::MarkA));
        assert_eq!(b.winning_line(), Some(k));
    }
}

#[test]
fn no_winning_line_without_a_line() {
    assert_eq!(Board::new().winning_line(), None);
    assert_eq!(play(&[0, 1, 2, 4, 3, 5, 7, 6, 8]).winning_line(), None);
    assert_eq!(play(&[4, 0, 1, 3]).winning_line(), None);
}

#[test]
fn every_line_set_to_mark_b_wins_for_mark_b() {
    for line in LINES {
        let f = fillers(line);
        let b = play(&[f[0], line[0], f[1], line[1], f[2], line[2]]);
        assert_eq!(b.outcome(), Outcome::Win(Cell::MarkB));
    }
}

#[test]
fn full_board_without_line_is_a_draw() {
    // A B A
    // A B B
    // B A A
    let b = play(&[0, 1, 2, 4, 3, 5, 7, 6, 8]);
    assert!(b.is_full());
    assert_eq!(b.first_empty(), None);
    assert_eq!(b.outcome(), Outcome::Draw);
    assert_eq!(b.count(Cell::MarkA), 5);
    assert_eq!(b.count(Cell::MarkB), 4);
}

#[test]
fn full_board_with_line_is_a_win() {
    // A B A
    // B A B
    // A B A  -> diagonal 0,4,8
    let b = play(&[0, 1, 2, 3, 4, 5, 6, 7, 8]);
    assert!(b.is_full());
    assert_eq!(b.outcome(), Outcome::Win(Cell::MarkA));
}

#[test]
fn first_won_line_decides_the_winner() {
    // Row 0 to A, then row 1 to B on a board that is played on.
    let b = play(&[0, 3, 1, 4, 2, 5]);
    assert_eq!(b.outcome(), Outcome::Win(Cell::MarkA));
}

#[test]
fn outcome_never_goes_back() {
    let moves = [4, 0, 1, 3, 7, 5, 2, 6, 8];
    let mut b = Board::new();
    let mut seen = Vec::new();
    for m in moves {
        let mark = b.next_mark();
        assert_eq!(b.place(m, mark), Ok(()));
        seen.push(b.outcome());
    }
    assert_eq!(seen[..4], [Outcome::InProgress; 4]);
    assert_eq!(seen[4], Outcome::Win(Cell::MarkA));
    // The board itself takes further marks; the position stays won.
    for o in &seen[4..] {
        assert!(matches!(o, Outcome::Win(_)));
        assert!(o.is_terminal());
    }
}

#[test]
fn earlier_line_of_the_other_mark_is_reported_first() {
    // A completes the middle column, then B completes the left one,
    // which comes first among the lines.
    let b = play(&[4, 0, 1, 3, 7, 5, 2, 6]);
    assert_eq!(b.outcome(), Outcome::Win(Cell::MarkB));
}

#[test]
fn drawn_board_takes_no_further_mark() {
    let mut b = play(&[0, 1, 2, 4, 3, 5, 7, 6, 8]);
    assert_eq!(b.outcome(), Outcome::Draw);
    let before = b;
    for i in 0..9 {
        assert_eq!(b.place(i, b.next_mark()), Err(InvalidMove::CellOccupied));
    }
    assert_eq!(b, before);
    assert_eq!(b.outcome(), Outcome::Draw);
}

#[test]
fn outcome_is_terminal_tells_the_variants_apart() {
    assert!(!Outcome::InProgress.is_terminal());
    assert!(Outcome::Draw.is_terminal());
    assert!(Outcome::Win(Cell::MarkB).is_terminal());
}

#[test]
fn line_kinds_are_rows_columns_and_diagonals() {
    assert_eq!(line_kind(0), Some(LineKind::Row(0)));
    assert_eq!(line_kind(1), Some(LineKind::Row(1)));
    assert_eq!(line_kind(2), Some(LineKind::Row(2)));
    assert_eq!(line_kind(3), Some(LineKind::Column(0)));
    assert_eq!(line_kind(4), Some(LineKind::Column(1)));
    assert_eq!(line_kind(5), Some(LineKind::Column(2)));
    assert_eq!(line_kind(6), Some(LineKind::Diagonal));
    assert_eq!(line_kind(7), Some(LineKind::AntiDiagonal));
    assert_eq!(line_kind(8), None);
    for (k, line) in LINES.iter().enumerate() {
        let squares = match line_kind(k).unwrap() {
            LineKind::Row(r) => [3 * r, 3 * r + 1, 3 * r + 2],
            LineKind::Column(c) => [c, c + 3, c + 6],
            LineKind::Diagonal => [0, 4, 8],
            LineKind::AntiDiagonal => [2, 4, 6],
        };
        assert_eq!(&squares, line);
    }
}

#[test]
fn completing_a_line_on_the_last_square_is_a_win_not_a_draw() {
    // A B A
    // B A B
    // B A .  -> A takes 8 and completes the diagonal on a full board.
    let mut b = play(&[0, 1, 2, 3, 4, 5, 7, 6]);
    assert_eq!(b.outcome(), Outcome::InProgress);
    assert_eq!(b.place(8, Cell::MarkA), Ok(()));
    assert!(b.is_full());
    assert_eq!(b.outcome(), Outcome::Win(Cell::MarkA));
    assert_eq!(b.winning_line(), Some(6));
}
