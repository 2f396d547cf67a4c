//! One match between two players: whose turn it is, where the cursor
//! stands, and which inputs are accepted.
//!
//! A session is modelled by `SessionView`; the rules are spec functions on
//! that model (`move_check`, `after_move`, `step`) and the methods of
//! `Session` are proved to follow them.

use vstd::prelude::*;
use crate::board::{Board, Cell, Outcome, InvalidMove, board_wf, next_mark, outcome_of, first_empty_of,
    count_upto, is_full, line_won, lemma_first_empty_exists, lemma_marks_alternate};

verus! {

/// Which of the two seats is to move.
#[derive(Clone, Copy, Debug, PartialEq, Eq, Structural)]
pub enum Turn {
    First,
    Second,
}

/// A cursor movement on the grid.
#[derive(Clone, Copy, Debug, PartialEq, Eq, Structural)]
pub enum Direction {
    Up,
    Down,
    Left,
    Right,
}

/// Why a session refused an input.
#[derive(Clone, Copy, Debug, PartialEq, Eq, Structural)]
pub enum SessionError {
    /// The requester is not the player to move.
    NotYourTurn,
    /// The target square already holds a mark.
    CellOccupied,
    /// The target is not one of the nine squares.
    InvalidCell,
    /// The game is over.
    SessionEnded,
}

/// Whether both players watch the game on one surface or each on their own.
#[derive(Clone, Copy, Debug, PartialEq, Eq, Structural)]
pub enum SurfaceLayout {
    /// Both players joined from the same channel.
    Shared,
    /// The players joined from different channels.
    Separate,
}

/// A participant: a stable identity, a display name and the channel the
/// player joined from.
#[derive(Debug, PartialEq, Eq)]
pub struct Player {
    pub id: u64,
    pub name: String,
    pub channel: u64,
}

impl Clone for Player {
    fn clone(&self) -> (r: Player)
        ensures
            r == *self,
    {
        Player { id: self.id, name: self.name.clone(), channel: self.channel }
    }
}

/// The mathematical model of a session.
pub struct SessionView {
    pub id: u64,
    pub first: Player,
    pub second: Player,
    pub layout: SurfaceLayout,
    pub cells: Seq<Cell>,
    pub turn: Turn,
    pub cursor: int,
}

impl Turn {
    pub open spec fn other_spec(self) -> Turn {
        match self {
            Turn::First => Turn::Second,
            Turn::Second => Turn::First,
        }
    }

    /// The opposite seat.
    #[verifier::when_used_as_spec(other_spec)]
    pub fn other(self) -> (r: Turn)
        ensures
            r == self.other_spec(),
    {
        match self {
            Turn::First => Turn::Second,
            Turn::Second => Turn::First,
        }
    }

    pub open spec fn mark_spec(self) -> Cell {
        match self {
            Turn::First => Cell::MarkA,
            Turn::Second => Cell::MarkB,
        }
    }

    /// The mark that the seat plays.
    #[verifier::when_used_as_spec(mark_spec)]
    pub fn mark(self) -> (r: Cell)
        ensures
            r == self.mark_spec(),
    {
        match self {
            Turn::First => Cell::MarkA,
            Turn::Second => Cell::MarkB,
        }
    }
}

impl Direction {
    /// The direction that undoes this one.
    pub open spec fn opposite(self) -> Direction {
        match self {
            Direction::Up => Direction::Down,
            Direction::Down => Direction::Up,
            Direction::Left => Direction::Right,
            Direction::Right => Direction::Left,
        }
    }
}

/// The layout that two channels give: shared when they are the same.
pub open spec fn layout_of(first_channel: u64, second_channel: u64) -> SurfaceLayout {
    if first_channel == second_channel {
        SurfaceLayout::Shared
    } else {
        SurfaceLayout::Separate
    }
}

/// The cursor after one step: the row or the column wraps modulo 3.
pub open spec fn step(cursor: int, direction: Direction) -> int {
    let row = cursor / 3;
    let col = cursor % 3;
    match direction {
        Direction::Up => ((row + 2) % 3) * 3 + col,
        Direction::Down => ((row + 1) % 3) * 3 + col,
        Direction::Left => row * 3 + (col + 2) % 3,
        Direction::Right => row * 3 + (col + 1) % 3,
    }
}

/// Where the cursor is put after a move: the first empty square, or
/// square 0 on a full board.
pub open spec fn default_cursor(cells: Seq<Cell>) -> int {
    match first_empty_of(cells) {
        Some(i) => i,
        None => 0,
    }
}

impl SessionView {
    /// A session that has just been opened: an empty board, the first seat
    /// to move, the cursor on square 0, and the layout fixed by the two
    /// channels.
    pub open spec fn fresh(id: u64, first: Player, second: Player) -> SessionView {
        SessionView {
            id,
            first,
            second,
            layout: layout_of(first.channel, second.channel),
            cells: Seq::new(9, |i: int| Cell::Empty),
            turn: Turn::First,
            cursor: 0,
        }
    }

    /// The invariant of a session: a well-formed board, a cursor on the
    /// grid, and a turn flag that agrees with the marks on the board.
    pub open spec fn wf(self) -> bool {
        &&& board_wf(self.cells)
        &&& 0 <= self.cursor < 9
        &&& self.turn.mark_spec() == next_mark(self.cells)
    }

    /// The identity of the player to move.
    pub open spec fn active_player(self) -> u64 {
        match self.turn {
            Turn::First => self.first.id,
            Turn::Second => self.second.id,
        }
    }

    /// The identity of the player who waits.
    pub open spec fn waiting_player(self) -> u64 {
        match self.turn {
            Turn::First => self.second.id,
            Turn::Second => self.first.id,
        }
    }

    /// Whether `player` holds one of the two seats.
    pub open spec fn is_participant(self, player: u64) -> bool {
        player == self.first.id || player == self.second.id
    }

    /// The classification of the position on the board.
    pub open spec fn outcome(self) -> Outcome {
        outcome_of(self.cells)
    }

    /// The verdict on `requester` placing a mark at `index`.
    pub open spec fn move_check(self, requester: u64, index: int) -> Result<(), SessionError> {
        if self.outcome().is_terminal_spec() {
            Err(SessionError::SessionEnded)
        } else if requester != self.active_player() {
            Err(SessionError::NotYourTurn)
        } else if !(0 <= index < 9) {
            Err(SessionError::InvalidCell)
        } else if self.cells[index] != Cell::Empty {
            Err(SessionError::CellOccupied)
        } else {
            Ok(())
        }
    }

    /// The session after the player to move has taken square `index`.
    pub open spec fn after_move(self, index: int) -> SessionView {
        let cells = self.cells.update(index, self.turn.mark_spec());
        SessionView { cells, turn: self.turn.other_spec(), cursor: default_cursor(cells), ..self }
    }

    /// The session after the cursor has moved one step.
    pub open spec fn after_step(self, direction: Direction) -> SessionView {
        SessionView { cursor: step(self.cursor, direction), ..self }
    }
}

/// A session that has just been opened satisfies the session invariant.
pub proof fn lemma_fresh_session_wf(id: u64, first: Player, second: Player)
    ensures
        SessionView::fresh(id, first, second).wf(),
        SessionView::fresh(id, first, second).outcome() == Outcome::InProgress,
{
    let cells = SessionView::fresh(id, first, second).cells;
    reveal_with_fuel(count_upto, 10);
    assert(cells[0] == Cell::Empty);
    assert forall|k: int| 0 <= k < 8 implies !line_won(cells, k) by {}
}

/// A finished session refuses every move, whoever asks and whatever the
/// square: there is no way out of a terminal outcome.
pub proof fn lemma_finished_session_refuses_moves(s: SessionView, requester: u64, index: int)
    requires
        s.outcome().is_terminal_spec(),
    ensures
        s.move_check(requester, index) == Err::<(), SessionError>(SessionError::SessionEnded),
{
}

/// An accepted move is made by the player to move on an empty square of
/// a game in progress, puts that player's mark there and passes the turn.
pub proof fn lemma_accepted_move(s: SessionView, requester: u64, index: int)
    requires
        s.wf(),
        s.move_check(requester, index) is Ok,
    ensures
        s.outcome() == Outcome::InProgress,
        requester == s.active_player(),
        s.cells[index] == Cell::Empty,
        s.after_move(index).cells[index] == s.turn.mark_spec(),
        s.after_move(index).turn != s.turn,
        s.after_move(index).wf(),
{
    lemma_marks_alternate(s.cells, index);
    let cells = s.after_move(index).cells;
    if !is_full(cells) {
        let i = choose|i: int| 0 <= i < 9 && cells[i] == Cell::Empty;
        lemma_first_empty_exists(cells, i);
    }
}

/// Cursor movement stays on the grid and wraps within the row or the
/// column: a step to the left or right keeps the row, a step up or down
/// keeps the column, three steps in one direction lead back to the start,
/// and a step back undoes a step.
pub proof fn lemma_cursor_wraps(cursor: int, direction: Direction)
    requires
        0 <= cursor < 9,
    ensures
        0 <= step(cursor, direction) < 9,
        step(cursor, direction) != cursor,
        direction is Left || direction is Right ==> step(cursor, direction) / 3 == cursor / 3,
        direction is Up || direction is Down ==> step(cursor, direction) % 3 == cursor % 3,
        step(step(step(cursor, direction), direction), direction) == cursor,
        step(step(cursor, direction), direction.opposite()) == cursor,
{
    let row = cursor / 3;
    let col = cursor % 3;
    assert(0 <= row < 3 && 0 <= col < 3 && cursor == row * 3 + col);
    let next = step(cursor, direction);
    match direction {
        Direction::Up => {
            assert(next / 3 == (row + 2) % 3 && next % 3 == col);
            let second = step(next, direction);
            assert(second / 3 == (row + 1) % 3 && second % 3 == col);
        },
        Direction::Down => {
            assert(next / 3 == (row + 1) % 3 && next % 3 == col);
            let second = step(next, direction);
            assert(second / 3 == (row + 2) % 3 && second % 3 == col);
        },
        Direction::Left => {
            assert(next / 3 == row && next % 3 == (col + 2) % 3);
            let second = step(next, direction);
            assert(second / 3 == row && second % 3 == (col + 1) % 3);
        },
        Direction::Right => {
            assert(next / 3 == row && next % 3 == (col + 1) % 3);
            let second = step(next, direction);
            assert(second / 3 == row && second % 3 == (col + 2) % 3);
        },
    }
}

/// From the top-left square a step to the left leads to the end of the
/// top row and a step up to the bottom of the left column.
pub proof fn lemma_cursor_wraps_from_corner()
    ensures
        step(0, Direction::Left) == 2,
        step(0, Direction::Up) == 6,
        step(8, Direction::Right) == 6,
        step(8, Direction::Down) == 2,
{
}

/// One active match between two players.
#[derive(Debug, PartialEq, Eq)]
pub struct Session {
    id: u64,
    first: Player,
    second: Player,
    layout: SurfaceLayout,
    board: Board,
    turn: Turn,
    cursor: usize,
}

impl View for Session {
    type V = SessionView;

    closed spec fn view(&self) -> SessionView {
        SessionView {
            id: self.id,
            first: self.first,
            second: self.second,
            layout: self.layout,
            cells: self.board@,
            turn: self.turn,
            cursor: self.cursor as int,
        }
    }
}

impl Clone for Session {
    fn clone(&self) -> (r: Session)
        ensures
            r@ == self@,
    {
        Session {
            id: self.id,
            first: self.first.clone(),
            second: self.second.clone(),
            layout: self.layout,
            board: self.board,
            turn: self.turn,
            cursor: self.cursor,
        }
    }
}

impl Session {
    /// The invariant of a session.
    pub open spec fn wf(&self) -> bool {
        self@.wf()
    }

    /// A fresh session: an empty board, the first seat to move, the cursor
    /// on square 0, and the layout fixed by the two channels.
    pub fn new(id: u64, first: Player, second: Player) -> (s: Session)
        ensures
            s.wf(),
            s@ == SessionView::fresh(id, first, second),
    {
        let layout = if first.channel == second.channel {
            SurfaceLayout::Shared
        } else {
            SurfaceLayout::Separate
        };
        let board = Board::new();
        proof {
            reveal_with_fuel(count_upto, 10);
        }
        Session { id, first, second, layout, board, turn: Turn::First, cursor: 0 }
    }

    /// The session's identifier.
    pub fn id(&self) -> (r: u64)
        ensures
            r == self@.id,
    {
        self.id
    }

    /// The player in the first seat, who plays `MarkA`.
    pub fn first(&self) -> (r: &Player)
        ensures
            *r == self@.first,
    {
        &self.first
    }

    /// The player in the second seat, who plays `MarkB`.
    pub fn second(&self) -> (r: &Player)
        ensures
            *r == self@.second,
    {
        &self.second
    }

    /// Whether the players share one surface.
    pub fn layout(&self) -> (r: SurfaceLayout)
        ensures
            r == self@.layout,
    {
        self.layout
    }

    /// The board as it stands.
    pub fn board(&self) -> (r: &Board)
        ensures
            r@ == self@.cells,
    {
        &self.board
    }

    /// The seat that is to move.
    pub fn turn(&self) -> (r: Turn)
        ensures
            r == self@.turn,
    {
        self.turn
    }

    /// The square under the cursor.
    pub fn cursor(&self) -> (r: usize)
        ensures
            r == self@.cursor,
    {
        self.cursor
    }

    /// The classification of the position on the board.
    pub fn outcome(&self) -> (r: Outcome)
        ensures
            r == self@.outcome(),
    {
        self.board.outcome()
    }

    /// The identity of the player to move.
    pub fn active_player(&self) -> (r: u64)
        ensures
            r == self@.active_player(),
    {
        match self.turn {
            Turn::First => self.first.id,
            Turn::Second => self.second.id,
        }
    }

    /// The identity of the player who waits.
    pub fn waiting_player(&self) -> (r: u64)
        ensures
            r == self@.waiting_player(),
    {
        match self.turn {
            Turn::First => self.second.id,
            Turn::Second => self.first.id,
        }
    }

    /// Whether `player` holds one of the two seats.
    pub fn is_participant(&self, player: u64) -> (r: bool)
        ensures
            r == self@.is_participant(player),
    {
        player == self.first.id || player == self.second.id
    }

    /// Places the mark of `requester` on square `index`.
    ///
    /// The input is refused, and the session left as it was, when the game
    /// is over, when it is not the requester's turn, when the index is off
    /// the grid or when the square is taken, in that order. Otherwise the
    /// mark is placed, the turn passes, the cursor goes to its default and
    /// the new outcome is returned.
    pub fn try_move(&mut self, requester: u64, index: usize) -> (r: Result<Outcome, SessionError>)
        requires
            old(self).wf(),
        ensures
            final(self).wf(),
            match old(self)@.move_check(requester, index as int) {
                Ok(()) => final(self)@ == old(self)@.after_move(index as int) && r == Ok::<
                    Outcome,
                    SessionError,
                >(final(self)@.outcome()),
                Err(e) => final(self)@ == old(self)@ && r == Err::<Outcome, SessionError>(e),
            },
    {
        if self.board.outcome().is_terminal() {
            return Err(SessionError::SessionEnded);
        }
        if requester != self.active_player() {
            return Err(SessionError::NotYourTurn);
        }
        proof {
            if index < 9 && self.board@[index as int] == Cell::Empty {
                lemma_marks_alternate(self.board@, index as int);
            }
        }
        match self.board.place(index, self.turn.mark()) {
            Err(InvalidMove::InvalidCell) => Err(SessionError::InvalidCell),
            Err(InvalidMove::CellOccupied) => Err(SessionError::CellOccupied),
            Err(InvalidMove::WrongMark) => vstd::pervasive::unreached(),
            Ok(()) => {
                self.turn = self.turn.other();
                self.cursor = match self.board.first_empty() {
                    Some(i) => i,
                    None => 0,
                };
                Ok(self.board.outcome())
            },
        }
    }

    /// Moves the cursor of `requester` one step; the row or the column
    /// wraps. Only the player to move may do so. The board is not touched.
    pub fn move_cursor(&mut self, requester: u64, direction: Direction) -> (r: Result<
        usize,
        SessionError,
    >)
        requires
            old(self).wf(),
        ensures
            final(self).wf(),
            match r {
                Ok(c) => requester == old(self)@.active_player() && c == final(self)@.cursor
                    && final(self)@ == old(self)@.after_step(direction),
                Err(e) => requester != old(self)@.active_player() && e == SessionError::NotYourTurn
                    && final(self)@ == old(self)@,
            },
            final(self)@.cells == old(self)@.cells,
    {
        if requester != self.active_player() {
            return Err(SessionError::NotYourTurn);
        }
        let row = self.cursor / 3;
        let col = self.cursor % 3;
        let next = match direction {
            Direction::Up => ((row + 2) % 3) * 3 + col,
            Direction::Down => ((row + 1) % 3) * 3 + col,
            Direction::Left => row * 3 + (col + 2) % 3,
            Direction::Right => row * 3 + (col + 1) % 3,
        };
        self.cursor = next;
        Ok(next)
    }
}

} // verus!
