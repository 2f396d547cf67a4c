//! The 3x3 board: cells, placement rules and outcome detection.
//!
//! A board is modelled as a sequence of nine cells in row-major order.
//! Everything a caller can observe is stated over that sequence: which
//! placements are accepted (`place_check`), whose mark is due (`next_mark`)
//! and how a position is classified (`outcome_of`).

use vstd::prelude::*;

verus! {

/// The state of one square of the board.
#[derive(Clone, Copy, Debug, PartialEq, Eq, Structural)]
pub enum Cell {
    Empty,
    MarkA,
    MarkB,
}

/// Classification of a position.
#[derive(Clone, Copy, Debug, PartialEq, Eq, Structural)]
pub enum Outcome {
    InProgress,
    Win(Cell),
    Draw,
}

/// Why a placement was refused.
#[derive(Clone, Copy, Debug, PartialEq, Eq, Structural)]
pub enum InvalidMove {
    /// The index does not name one of the nine squares.
    InvalidCell,
    /// The square already holds a mark.
    CellOccupied,
    /// The mark is not the one whose turn it is.
    WrongMark,
}

/// Number of squares among the first `n` that hold `mark`.
pub open spec fn count_upto(cells: Seq<Cell>, mark: Cell, n: int) -> nat
    decreases n,
{
    if n <= 0 {
        0
    } else {
        count_upto(cells, mark, n - 1) + if cells[n - 1] == mark {
            1nat
        } else {
            0nat
        }
    }
}

/// Number of squares of the board that hold `mark`.
pub open spec fn count_of(cells: Seq<Cell>, mark: Cell) -> nat {
    count_upto(cells, mark, 9)
}

/// The board invariant: nine squares, and the marks alternate starting
/// with `MarkA`.
pub open spec fn board_wf(cells: Seq<Cell>) -> bool {
    &&& cells.len() == 9
    &&& (count_of(cells, Cell::MarkA) == count_of(cells, Cell::MarkB) || count_of(
        cells,
        Cell::MarkA,
    ) == count_of(cells, Cell::MarkB) + 1)
}

/// The mark that may be placed next.
pub open spec fn next_mark(cells: Seq<Cell>) -> Cell {
    if count_of(cells, Cell::MarkA) == count_of(cells, Cell::MarkB) {
        Cell::MarkA
    } else {
        Cell::MarkB
    }
}

/// The verdict on placing `mark` at `index`.
pub open spec fn place_check(cells: Seq<Cell>, index: int, mark: Cell) -> Result<(), InvalidMove> {
    if !(0 <= index < 9) {
        Err(InvalidMove::InvalidCell)
    } else if cells[index] != Cell::Empty {
        Err(InvalidMove::CellOccupied)
    } else if mark != next_mark(cells) {
        Err(InvalidMove::WrongMark)
    } else {
        Ok(())
    }
}

/// The eight winning triples: rows, then columns, then the two diagonals.
pub open spec fn line(k: int) -> (int, int, int) {
    if k == 0 {
        (0, 1, 2)
    } else if k == 1 {
        (3, 4, 5)
    } else if k == 2 {
        (6, 7, 8)
    } else if k == 3 {
        (0, 3, 6)
    } else if k == 4 {
        (1, 4, 7)
    } else if k == 5 {
        (2, 5, 8)
    } else if k == 6 {
        (0, 4, 8)
    } else {
        (2, 4, 6)
    }
}

/// The shape of a winning line: one of three rows, one of three columns,
/// or one of the two diagonals.
#[derive(Clone, Copy, Debug, PartialEq, Eq, Structural)]
pub enum LineKind {
    /// The row with this number, counted from the top.
    Row(usize),
    /// The column with this number, counted from the left.
    Column(usize),
    /// From the top-left corner to the bottom-right.
    Diagonal,
    /// From the top-right corner to the bottom-left.
    AntiDiagonal,
}

impl LineKind {
    /// The three squares of a line of this shape.
    pub open spec fn squares(self) -> (int, int, int) {
        match self {
            LineKind::Row(r) => (3 * r, 3 * r + 1, 3 * r + 2),
            LineKind::Column(c) => (c as int, c + 3, c + 6),
            LineKind::Diagonal => (0, 4, 8),
            LineKind::AntiDiagonal => (2, 4, 6),
        }
    }

    /// The shape of line `k`.
    pub open spec fn of(k: int) -> LineKind {
        if k < 3 {
            LineKind::Row(k as usize)
        } else if k < 6 {
            LineKind::Column((k - 3) as usize)
        } else if k == 6 {
            LineKind::Diagonal
        } else {
            LineKind::AntiDiagonal
        }
    }
}

/// The three squares of line `k` all hold `mark`.
pub open spec fn line_held_by(cells: Seq<Cell>, k: int, mark: Cell) -> bool {
    &&& cells[line(k).0] == mark
    &&& cells[line(k).1] == mark
    &&& cells[line(k).2] == mark
}

/// Line `k` is fully set to one mark.
pub open spec fn line_won(cells: Seq<Cell>, k: int) -> bool {
    cells[line(k).0] != Cell::Empty && line_held_by(cells, k, cells[line(k).0])
}

/// Line `k` is won and no line before it is.
pub open spec fn is_first_won_line(cells: Seq<Cell>, k: int) -> bool {
    &&& 0 <= k < 8
    &&& line_won(cells, k)
    &&& forall|j: int| 0 <= j < k ==> !line_won(cells, j)
}

/// Some line is won.
pub open spec fn has_won_line(cells: Seq<Cell>) -> bool {
    exists|k: int| 0 <= k < 8 && line_won(cells, k)
}

/// No square is empty.
pub open spec fn is_full(cells: Seq<Cell>) -> bool {
    forall|i: int| 0 <= i < 9 ==> cells[i] != Cell::Empty
}

/// The classification of a position: the owner of the first won line wins;
/// without a won line a full board is a draw; anything else is in progress.
pub open spec fn outcome_of(cells: Seq<Cell>) -> Outcome {
    if has_won_line(cells) {
        let k = choose|k: int| is_first_won_line(cells, k);
        Outcome::Win(cells[line(k).0])
    } else if is_full(cells) {
        Outcome::Draw
    } else {
        Outcome::InProgress
    }
}

/// Square `i` is empty and no square before it is.
pub open spec fn is_first_empty(cells: Seq<Cell>, i: int) -> bool {
    &&& 0 <= i < 9
    &&& cells[i] == Cell::Empty
    &&& forall|j: int| 0 <= j < i ==> cells[j] != Cell::Empty
}

/// The first empty square, if there is one.
pub open spec fn first_empty_of(cells: Seq<Cell>) -> Option<int> {
    if is_full(cells) {
        None
    } else {
        Some(choose|i: int| is_first_empty(cells, i))
    }
}

impl Outcome {
    pub open spec fn is_terminal_spec(self) -> bool {
        !(self is InProgress)
    }

    /// Whether the game is over.
    #[verifier::when_used_as_spec(is_terminal_spec)]
    pub fn is_terminal(self) -> (r: bool)
        ensures
            r == self.is_terminal_spec(),
    {
        match self {
            Outcome::InProgress => false,
            _ => true,
        }
    }
}

/// A 3x3 grid of cells in row-major order.
#[derive(Clone, Copy, Debug, PartialEq, Eq)]
pub struct Board {
    cells: [Cell; 9],
}

impl View for Board {
    type V = Seq<Cell>;

    closed spec fn view(&self) -> Seq<Cell> {
        self.cells@
    }
}

/// The three squares of line `k`.
fn line_cells(k: usize) -> (r: (usize, usize, usize))
    requires
        k < 8,
    ensures
        (r.0 as int, r.1 as int, r.2 as int) == line(k as int),
        r.0 < 9,
        r.1 < 9,
        r.2 < 9,
{
    match k {
        0 => (0, 1, 2),
        1 => (3, 4, 5),
        2 => (6, 7, 8),
        3 => (0, 3, 6),
        4 => (1, 4, 7),
        5 => (2, 5, 8),
        6 => (0, 4, 8),
        _ => (2, 4, 6),
    }
}

/// The shape of line `k`, if there is such a line: lines 0 to 2 are the
/// rows, 3 to 5 the columns, 6 and 7 the diagonals.
pub fn line_kind(k: usize) -> (r: Option<LineKind>)
    ensures
        r == if k < 8 {
            Some(LineKind::of(k as int))
        } else {
            None
        },
        k < 8 ==> LineKind::of(k as int).squares() == line(k as int),
{
    if k < 3 {
        Some(LineKind::Row(k))
    } else if k < 6 {
        Some(LineKind::Column(k - 3))
    } else if k == 6 {
        Some(LineKind::Diagonal)
    } else if k == 7 {
        Some(LineKind::AntiDiagonal)
    } else {
        None
    }
}

/// Replacing the content of one square changes each count by what left
/// and what arrived.
proof fn lemma_count_update(cells: Seq<Cell>, index: int, new: Cell, mark: Cell, n: int)
    requires
        0 <= index < cells.len(),
        0 <= n <= cells.len(),
    ensures
        count_upto(cells.update(index, new), mark, n) + (if index < n && cells[index] == mark {
            1nat
        } else {
            0nat
        }) == count_upto(cells, mark, n) + (if index < n && new == mark {
            1nat
        } else {
            0nat
        }),
    decreases n,
{
    if n > 0 {
        lemma_count_update(cells, index, new, mark, n - 1);
    }
}

/// The first won line exists whenever some line is won.
proof fn lemma_first_won_line_exists(cells: Seq<Cell>, k: int)
    requires
        0 <= k < 8,
        line_won(cells, k),
    ensures
        exists|f: int| is_first_won_line(cells, f) && f <= k,
    decreases k,
{
    if exists|j: int| 0 <= j < k && line_won(cells, j) {
        let j = choose|j: int| 0 <= j < k && line_won(cells, j);
        lemma_first_won_line_exists(cells, j);
    } else {
        assert(is_first_won_line(cells, k));
    }
}

impl Board {
    /// The invariant of a board that was played on from empty.
    pub open spec fn wf(&self) -> bool {
        board_wf(self@)
    }

    /// An empty board.
    pub fn new() -> (b: Board)
        ensures
            b@ == Seq::new(9, |i: int| Cell::Empty),
            b.wf(),
    {
        let b = Board { cells: [Cell::Empty; 9] };
        proof {
            assert(b@ =~= Seq::new(9, |i: int| Cell::Empty));
            reveal_with_fuel(count_upto, 10);
        }
        b
    }

    /// The content of square `index`, if there is such a square.
    pub fn cell(&self, index: usize) -> (r: Option<Cell>)
        ensures
            self@.len() == 9,
            r == if index < 9 {
                Some(self@[index as int])
            } else {
                None
            },
    {
        if index < 9 {
            Some(self.cells[index])
        } else {
            None
        }
    }

    /// A copy of the nine squares.
    pub fn cells(&self) -> (r: [Cell; 9])
        ensures
            r@ == self@,
    {
        self.cells
    }

    /// How many squares hold `mark`.
    pub fn count(&self, mark: Cell) -> (n: usize)
        ensures
            n == count_of(self@, mark),
            n <= 9,
    {
        let mut n: usize = 0;
        let mut i: usize = 0;
        while i < 9
            invariant
                i <= 9,
                n == count_upto(self@, mark, i as int),
                n <= i,
            decreases 9 - i,
        {
            if self.cells[i] == mark {
                n = n + 1;
            }
            i = i + 1;
        }
        n
    }

    /// The mark that may be placed next.
    pub fn next_mark(&self) -> (m: Cell)
        ensures
            m == next_mark(self@),
    {
        if self.count(Cell::MarkA) == self.count(Cell::MarkB) {
            Cell::MarkA
        } else {
            Cell::MarkB
        }
    }

    /// Whether every square holds a mark.
    pub fn is_full(&self) -> (r: bool)
        ensures
            r == is_full(self@),
    {
        let mut i: usize = 0;
        while i < 9
            invariant
                i <= 9,
                forall|j: int| 0 <= j < i ==> self@[j] != Cell::Empty,
            decreases 9 - i,
        {
            if self.cells[i] == Cell::Empty {
                return false;
            }
            i = i + 1;
        }
        true
    }

    /// The first empty square, if there is one.
    pub fn first_empty(&self) -> (r: Option<usize>)
        ensures
            first_empty_of(self@) == match r {
                Some(i) => Some(i as int),
                None => None,
            },
            r matches Some(i) ==> is_first_empty(self@, i as int),
            r is None <==> is_full(self@),
    {
        let mut i: usize = 0;
        while i < 9
            invariant
                i <= 9,
                forall|j: int| 0 <= j < i ==> self@[j] != Cell::Empty,
            decreases 9 - i,
        {
            if self.cells[i] == Cell::Empty {
                proof {
                    assert(is_first_empty(self@, i as int));
                    let f = choose|f: int| is_first_empty(self@, f);
                    assert(f == i);
                }
                return Some(i);
            }
            i = i + 1;
        }
        None
    }

    /// Puts `mark` on square `index`.
    ///
    /// The placement is refused, and the board left as it was, when the
    /// index is out of range, the square is taken, or the mark is not the
    /// one whose turn it is.
    pub fn place(&mut self, index: usize, mark: Cell) -> (r: Result<(), InvalidMove>)
        ensures
            r == place_check(old(self)@, index as int, mark),
            r is Ok ==> final(self)@ == old(self)@.update(index as int, mark),
            r is Err ==> *final(self) == *old(self),
            index < 9 && old(self)@[index as int] != Cell::Empty ==> r == Err::<(), InvalidMove>(
                InvalidMove::CellOccupied,
            ) && *final(self) == *old(self),
            old(self).wf() ==> final(self).wf(),
    {
        if index >= 9 {
            return Err(InvalidMove::InvalidCell);
        }
        if self.cells[index] != Cell::Empty {
            return Err(InvalidMove::CellOccupied);
        }
        if mark != self.next_mark() {
            return Err(InvalidMove::WrongMark);
        }
        proof {
            lemma_count_update(self@, index as int, mark, Cell::MarkA, 9);
            lemma_count_update(self@, index as int, mark, Cell::MarkB, 9);
        }
        self.cells[index] = mark;
        Ok(())
    }

    /// The first line that is fully set to one mark, if there is one.
    pub fn winning_line(&self) -> (r: Option<usize>)
        ensures
            r is Some <==> has_won_line(self@),
            r matches Some(k) ==> is_first_won_line(self@, k as int),
    {
        let mut k: usize = 0;
        while k < 8
            invariant
                k <= 8,
                self@.len() == 9,
                forall|j: int| 0 <= j < k ==> !line_won(self@, j),
            decreases 8 - k,
        {
            let (a, b, c) = line_cells(k);
            let owner = self.cells[a];
            if owner != Cell::Empty && self.cells[b] == owner && self.cells[c] == owner {
                assert(line_won(self@, k as int));
                return Some(k);
            }
            k = k + 1;
        }
        None
    }

    /// Classifies the position.
    pub fn outcome(&self) -> (r: Outcome)
        ensures
            r == outcome_of(self@),
            r matches Outcome::Win(mark) ==> mark != Cell::Empty,
    {
        match self.winning_line() {
            Some(k) => {
                proof {
                    lemma_outcome_win(self@);
                }
                let (a, _, _) = line_cells(k);
                Outcome::Win(self.cells[a])
            },
            None => {
                if self.is_full() {
                    Outcome::Draw
                } else {
                    Outcome::InProgress
                }
            },
        }
    }
}

/// A board with an empty square has a first empty square, and
/// `first_empty_of` names it.
pub proof fn lemma_first_empty_exists(cells: Seq<Cell>, i: int)
    requires
        0 <= i < 9,
        cells[i] == Cell::Empty,
    ensures
        first_empty_of(cells) matches Some(f) && is_first_empty(cells, f) && f <= i,
    decreases i,
{
    if exists|j: int| 0 <= j < i && cells[j] == Cell::Empty {
        let j = choose|j: int| 0 <= j < i && cells[j] == Cell::Empty;
        lemma_first_empty_exists(cells, j);
    } else {
        assert(is_first_empty(cells, i));
        let f = choose|f: int| is_first_empty(cells, f);
        assert(f == i);
    }
}

/// The squares named by a sequence of moves can be taken one after the
/// other, starting from `cells`, by the marks whose turn it is.
pub open spec fn legal_sequence(cells: Seq<Cell>, moves: Seq<int>) -> bool
    decreases moves.len(),
{
    moves.len() == 0 || (place_check(cells, moves[0], next_mark(cells)) is Ok && legal_sequence(
        cells.update(moves[0], next_mark(cells)),
        moves.drop_first(),
    ))
}

/// The position reached from `cells` by a sequence of alternating moves.
pub open spec fn play(cells: Seq<Cell>, moves: Seq<int>) -> Seq<Cell>
    decreases moves.len(),
{
    if moves.len() == 0 {
        cells
    } else {
        play(cells.update(moves[0], next_mark(cells)), moves.drop_first())
    }
}

/// A position is classified as won exactly when some line is won, and the
/// winner is the owner of the first such line.
pub proof fn lemma_outcome_win(cells: Seq<Cell>)
    ensures
        outcome_of(cells) is Win <==> has_won_line(cells),
        forall|k: int| is_first_won_line(cells, k) ==> outcome_of(cells) == Outcome::Win(cells[line(k).0]),
        outcome_of(cells) is Win ==> outcome_of(cells)->Win_0 != Cell::Empty,
{
    assert forall|k: int| is_first_won_line(cells, k) implies outcome_of(cells) == Outcome::Win(
        cells[line(k).0],
    ) by {
        assert(line_won(cells, k));
        let f = choose|f: int| is_first_won_line(cells, f);
        assert(f == k);
    }
    if has_won_line(cells) {
        let k = choose|k: int| 0 <= k < 8 && line_won(cells, k);
        lemma_first_won_line_exists(cells, k);
    }
}

/// A line fully set to one mark ends the game, and that mark is reported as
/// the winner unless an earlier line is fully set to the other mark.
pub proof fn lemma_complete_line_wins(cells: Seq<Cell>, k: int, mark: Cell)
    requires
        cells.len() == 9,
        0 <= k < 8,
        mark != Cell::Empty,
        line_held_by(cells, k, mark),
    ensures
        outcome_of(cells) is Win,
        (forall|j: int| 0 <= j < k && line_won(cells, j) ==> line_held_by(cells, j, mark))
            ==> outcome_of(cells) == Outcome::Win(mark),
{
    assert(line_won(cells, k));
    lemma_first_won_line_exists(cells, k);
    lemma_outcome_win(cells);
    let f = choose|f: int| is_first_won_line(cells, f) && f <= k;
    assert(outcome_of(cells) == Outcome::Win(cells[line(f).0]));
}

/// On a board without a won line, a mark that completes a line wins,
/// whether or not the board is full afterwards.
pub proof fn lemma_move_completing_line_wins(cells: Seq<Cell>, index: int, mark: Cell, k: int)
    requires
        cells.len() == 9,
        !has_won_line(cells),
        0 <= index < 9,
        cells[index] == Cell::Empty,
        mark != Cell::Empty,
        0 <= k < 8,
        line_held_by(cells.update(index, mark), k, mark),
    ensures
        outcome_of(cells.update(index, mark)) == Outcome::Win(mark),
{
    let after = cells.update(index, mark);
    assert forall|j: int| 0 <= j < k && line_won(after, j) implies line_held_by(after, j, mark) by {
        if line(j).0 != index && line(j).1 != index && line(j).2 != index {
            assert(line_won(cells, j));
        }
    }
    lemma_complete_line_wins(after, k, mark);
}

/// A full board on which no line is won is a draw.
pub proof fn lemma_full_board_without_line_is_draw(cells: Seq<Cell>)
    requires
        cells.len() == 9,
        is_full(cells),
        !has_won_line(cells),
    ensures
        outcome_of(cells) == Outcome::Draw,
{
}

/// Taking an empty square leaves every won line won, so a won position
/// stays won.
pub proof fn lemma_placement_keeps_win(cells: Seq<Cell>, index: int, mark: Cell)
    requires
        cells.len() == 9,
        0 <= index < 9,
        cells[index] == Cell::Empty,
    ensures
        forall|k: int| 0 <= k < 8 && line_won(cells, k) ==> line_won(cells.update(index, mark), k),
        outcome_of(cells) is Win ==> outcome_of(cells.update(index, mark)) is Win,
{
    let after = cells.update(index, mark);
    assert forall|k: int| 0 <= k < 8 && line_won(cells, k) implies line_won(after, k) by {
        assert(line(k).0 != index && line(k).1 != index && line(k).2 != index);
    }
    lemma_outcome_win(cells);
    lemma_outcome_win(after);
    if has_won_line(cells) {
        let k = choose|k: int| 0 <= k < 8 && line_won(cells, k);
        assert(line_won(after, k));
    }
}

/// The outcome never goes backward: along any sequence of legal
/// alternating moves a finished position stays finished. A won position
/// stays won, and a drawn position admits no further move at all.
pub proof fn lemma_outcome_never_goes_back(cells: Seq<Cell>, moves: Seq<int>)
    requires
        cells.len() == 9,
        legal_sequence(cells, moves),
    ensures
        play(cells, moves).len() == 9,
        outcome_of(cells) is Win ==> outcome_of(play(cells, moves)) is Win,
        outcome_of(cells) is Draw ==> play(cells, moves) == cells,
        outcome_of(cells).is_terminal_spec() ==> outcome_of(play(cells, moves)).is_terminal_spec(),
    decreases moves.len(),
{
    if moves.len() > 0 {
        let next = cells.update(moves[0], next_mark(cells));
        lemma_placement_keeps_win(cells, moves[0], next_mark(cells));
        lemma_outcome_never_goes_back(next, moves.drop_first());
        lemma_outcome_win(cells);
    }
}

/// On a well-formed board the marks alternate: once the mark that is due
/// has been placed on an empty square, the other mark is due.
pub proof fn lemma_marks_alternate(cells: Seq<Cell>, index: int)
    requires
        board_wf(cells),
        0 <= index < 9,
        cells[index] == Cell::Empty,
    ensures
        board_wf(cells.update(index, next_mark(cells))),
        next_mark(cells) == Cell::MarkA ==> next_mark(cells.update(index, next_mark(cells)))
            == Cell::MarkB,
        next_mark(cells) == Cell::MarkB ==> next_mark(cells.update(index, next_mark(cells)))
            == Cell::MarkA,
{
    lemma_count_update(cells, index, next_mark(cells), Cell::MarkA, 9);
    lemma_count_update(cells, index, next_mark(cells), Cell::MarkB, 9);
}

/// Every legal move keeps the board invariant.
pub proof fn lemma_play_keeps_wf(cells: Seq<Cell>, moves: Seq<int>)
    requires
        board_wf(cells),
        legal_sequence(cells, moves),
    ensures
        board_wf(play(cells, moves)),
    decreases moves.len(),
{
    if moves.len() > 0 {
        lemma_marks_alternate(cells, moves[0]);
        lemma_play_keeps_wf(cells.update(moves[0], next_mark(cells)), moves.drop_first());
    }
}

} // verus!
