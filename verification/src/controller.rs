//! The turn controller: from an input event to a change of the lobby and
//! the update that the host is to show.
//!
//! The lobby is the waiting slot together with the live sessions.
//! `input_result`, `slot_after_input` and `sessions_after_input` say, for
//! every lobby, player and kind of input, what is answered and what the
//! lobby becomes; `handle_input` is proved to do exactly that.

use vstd::prelude::*;
use vstd::string::*;
use crate::board::Outcome;
use crate::matchmaker::{JoinOutcome, Matchmaker, RejectReason, join_outcome,
    lemma_join_keeps_in_progress, sessions_after_join, slot_after_join, slot_consistent};
use crate::registry::{SessionRegistry, all_in_progress, has_id, index_of_id, is_active,
    lemma_session_index, session_index_of};
use crate::render::{Render, RenderView, active_render_of, render_plan_of, stop_plan_of, views_of};
use crate::session::{Direction, Player, Session, SessionError, SessionView, step};

verus! {

/// What a player asks for.
#[derive(Clone, Copy, Debug, PartialEq, Eq, Structural)]
pub enum InputKind {
    /// Move the cursor one step.
    MoveCursor(Direction),
    /// Place a mark on the square under the cursor.
    Confirm,
    /// Leave: stop the session, or withdraw the waiting slot.
    Cancel,
    /// Ask for a game.
    StartGame,
}

impl InputKind {
    /// The kind of input that a name stands for.
    pub open spec fn named(name: Seq<char>) -> Option<InputKind> {
        if name == "up"@ {
            Some(InputKind::MoveCursor(Direction::Up))
        } else if name == "down"@ {
            Some(InputKind::MoveCursor(Direction::Down))
        } else if name == "left"@ {
            Some(InputKind::MoveCursor(Direction::Left))
        } else if name == "right"@ {
            Some(InputKind::MoveCursor(Direction::Right))
        } else if name == "confirm"@ {
            Some(InputKind::Confirm)
        } else if name == "cancel"@ {
            Some(InputKind::Cancel)
        } else if name == "start"@ {
            Some(InputKind::StartGame)
        } else {
            None
        }
    }

    /// The name of a kind of input.
    pub open spec fn name_text(self) -> Seq<char> {
        match self {
            InputKind::MoveCursor(Direction::Up) => "up"@,
            InputKind::MoveCursor(Direction::Down) => "down"@,
            InputKind::MoveCursor(Direction::Left) => "left"@,
            InputKind::MoveCursor(Direction::Right) => "right"@,
            InputKind::Confirm => "confirm"@,
            InputKind::Cancel => "cancel"@,
            InputKind::StartGame => "start"@,
        }
    }

    /// The kind of input that `name` stands for, if any.
    pub fn parse(name: &str) -> (r: Option<InputKind>)
        ensures
            r == InputKind::named(name@),
    {
        let given = String::from_str(name);
        if given == String::from_str("up") {
            Some(InputKind::MoveCursor(Direction::Up))
        } else if given == String::from_str("down") {
            Some(InputKind::MoveCursor(Direction::Down))
        } else if given == String::from_str("left") {
            Some(InputKind::MoveCursor(Direction::Left))
        } else if given == String::from_str("right") {
            Some(InputKind::MoveCursor(Direction::Right))
        } else if given == String::from_str("confirm") {
            Some(InputKind::Confirm)
        } else if given == String::from_str("cancel") {
            Some(InputKind::Cancel)
        } else if given == String::from_str("start") {
            Some(InputKind::StartGame)
        } else {
            None
        }
    }

    /// The name of the kind of input; `parse` reads it back.
    pub fn name(self) -> (n: String)
        ensures
            n@ == self.name_text(),
            InputKind::named(n@) == Some(self),
    {
        proof {
            lemma_names_read_back(self);
        }
        match self {
            InputKind::MoveCursor(Direction::Up) => String::from_str("up"),
            InputKind::MoveCursor(Direction::Down) => String::from_str("down"),
            InputKind::MoveCursor(Direction::Left) => String::from_str("left"),
            InputKind::MoveCursor(Direction::Right) => String::from_str("right"),
            InputKind::Confirm => String::from_str("confirm"),
            InputKind::Cancel => String::from_str("cancel"),
            InputKind::StartGame => String::from_str("start"),
        }
    }
}

/// The names of the kinds of input are pairwise distinct: the name of a
/// kind stands for that kind.
pub proof fn lemma_names_read_back(kind: InputKind)
    ensures
        InputKind::named(kind.name_text()) == Some(kind),
{
    reveal_strlit("up");
    reveal_strlit("down");
    reveal_strlit("left");
    reveal_strlit("right");
    reveal_strlit("confirm");
    reveal_strlit("cancel");
    reveal_strlit("start");
    assert("up"@.len() == 2 && "down"@.len() == 4 && "left"@.len() == 4);
    assert("right"@.len() == 5 && "start"@.len() == 5);
    assert("confirm"@.len() == 7 && "cancel"@.len() == 6);
    assert("down"@[0] == 'd' && "left"@[0] == 'l');
    assert("right"@[0] == 'r' && "start"@[0] == 's');
    match kind {
        InputKind::MoveCursor(Direction::Left) => {
            assert("left"@ != "down"@);
        },
        InputKind::StartGame => {
            assert("start"@ != "right"@);
        },
        _ => {},
    }
}

/// Why an input was refused.
#[derive(Clone, Copy, Debug, PartialEq, Eq, Structural)]
pub enum CoreError {
    /// The requester takes part in a live session.
    AlreadyInGame,
    /// The requester already holds the waiting slot.
    AlreadyWaiting,
    /// The requester is not the player to move.
    NotYourTurn,
    /// The square under the cursor already holds a mark.
    CellOccupied,
    /// The target is not one of the nine squares.
    InvalidCell,
    /// The game is over.
    SessionEnded,
    /// The requester neither plays nor waits.
    NotInGame,
    /// A render could not be delivered. The host reports this; no function
    /// of the library returns it.
    RenderSurfaceFailure,
}

impl CoreError {
    pub open spec fn from_session_spec(e: SessionError) -> CoreError {
        match e {
            SessionError::NotYourTurn => CoreError::NotYourTurn,
            SessionError::CellOccupied => CoreError::CellOccupied,
            SessionError::InvalidCell => CoreError::InvalidCell,
            SessionError::SessionEnded => CoreError::SessionEnded,
        }
    }

    /// The error that stands for a refusal by a session.
    #[verifier::when_used_as_spec(from_session_spec)]
    pub fn from_session(e: SessionError) -> (r: CoreError)
        ensures
            r == CoreError::from_session_spec(e),
    {
        match e {
            SessionError::NotYourTurn => CoreError::NotYourTurn,
            SessionError::CellOccupied => CoreError::CellOccupied,
            SessionError::InvalidCell => CoreError::InvalidCell,
            SessionError::SessionEnded => CoreError::SessionEnded,
        }
    }

    pub open spec fn from_reject_spec(reason: RejectReason) -> CoreError {
        match reason {
            RejectReason::AlreadyInGame => CoreError::AlreadyInGame,
            RejectReason::AlreadyWaiting => CoreError::AlreadyWaiting,
        }
    }

    /// The error that stands for a join request that was turned down.
    #[verifier::when_used_as_spec(from_reject_spec)]
    pub fn from_reject(reason: RejectReason) -> (r: CoreError)
        ensures
            r == CoreError::from_reject_spec(reason),
    {
        match reason {
            RejectReason::AlreadyInGame => CoreError::AlreadyInGame,
            RejectReason::AlreadyWaiting => CoreError::AlreadyWaiting,
        }
    }
}

/// What an accepted input changed, for the host to show.
#[derive(Debug, PartialEq, Eq)]
pub enum Update {
    /// The requester took the waiting slot.
    Waiting,
    /// The requester was paired with the waiting player in the session with
    /// this identifier.
    Matched(u64),
    /// The requester's waiting slot was withdrawn.
    WaitingCancelled,
    /// In the session with this identifier the cursor moved to this square.
    CursorMoved(u64, usize),
    /// In the session with this identifier a mark was placed and the turn
    /// passed.
    TurnPassed(u64),
    /// A mark was placed and ended the game. The session has left the
    /// registry and is handed over for its last render.
    Finished(Session),
    /// A player stopped the session. It has left the registry and is handed
    /// over for its last render.
    Stopped(Session),
}

/// The mathematical model of an update.
pub enum UpdateView {
    Waiting,
    Matched(u64),
    WaitingCancelled,
    CursorMoved(u64, int),
    TurnPassed(u64),
    Finished(SessionView),
    Stopped(SessionView),
}

impl View for Update {
    type V = UpdateView;

    open spec fn view(&self) -> UpdateView {
        match *self {
            Update::Waiting => UpdateView::Waiting,
            Update::Matched(id) => UpdateView::Matched(id),
            Update::WaitingCancelled => UpdateView::WaitingCancelled,
            Update::CursorMoved(id, cursor) => UpdateView::CursorMoved(id, cursor as int),
            Update::TurnPassed(id) => UpdateView::TurnPassed(id),
            Update::Finished(s) => UpdateView::Finished(s@),
            Update::Stopped(s) => UpdateView::Stopped(s@),
        }
    }
}

impl UpdateView {
    /// A session that is handed over is well formed.
    pub open spec fn wf(self) -> bool {
        match self {
            UpdateView::Finished(s) => s.wf(),
            UpdateView::Stopped(s) => s.wf(),
            _ => true,
        }
    }
}

impl Update {
    /// The invariant of an update.
    pub open spec fn wf(&self) -> bool {
        self@.wf()
    }
}

/// The renders that an update calls for, given the live sessions after it.
///
/// A match and a passed turn call for the whole plan of the session, a
/// cursor step for the view of the player to move alone, a finished game
/// for the final plan of the session that was handed over, and a stopped
/// one for its stop plan. Waiting and its withdrawal show no board.
pub open spec fn renders_of(update: UpdateView, sessions: Seq<SessionView>) -> Seq<RenderView> {
    match update {
        UpdateView::Waiting => Seq::empty(),
        UpdateView::WaitingCancelled => Seq::empty(),
        UpdateView::Matched(id) => if has_id(sessions, id) {
            render_plan_of(sessions[index_of_id(sessions, id)])
        } else {
            Seq::empty()
        },
        UpdateView::TurnPassed(id) => if has_id(sessions, id) {
            render_plan_of(sessions[index_of_id(sessions, id)])
        } else {
            Seq::empty()
        },
        UpdateView::CursorMoved(id, _) => if has_id(sessions, id) {
            seq![active_render_of(sessions[index_of_id(sessions, id)])]
        } else {
            Seq::empty()
        },
        UpdateView::Finished(s) => render_plan_of(s),
        UpdateView::Stopped(s) => stop_plan_of(s),
    }
}

/// The answer to an input of `player`.
///
/// `StartGame` is a join request. The other kinds need the requester's
/// session, and `Cancel` falls back on the waiting slot; a requester with
/// neither is answered `NotInGame`. A cursor step is refused unless the
/// requester is to move. `Confirm` is a move on the square under the cursor
/// and ends the session when the outcome becomes terminal.
pub open spec fn input_result(
    slot: Option<Player>,
    sessions: Seq<SessionView>,
    player: Player,
    kind: InputKind,
) -> Result<UpdateView, CoreError> {
    let s = sessions[session_index_of(sessions, player.id)];
    match kind {
        InputKind::StartGame => match join_outcome(slot, sessions, player) {
            JoinOutcome::BecameWaiting => Ok(UpdateView::Waiting),
            JoinOutcome::MatchedInto(id) => Ok(UpdateView::Matched(id)),
            JoinOutcome::Rejected(reason) => Err(CoreError::from_reject_spec(reason)),
        },
        InputKind::Cancel => if is_active(sessions, player.id) {
            Ok(UpdateView::Stopped(s))
        } else if slot matches Some(w) && w.id == player.id {
            Ok(UpdateView::WaitingCancelled)
        } else {
            Err(CoreError::NotInGame)
        },
        InputKind::MoveCursor(direction) => if !is_active(sessions, player.id) {
            Err(CoreError::NotInGame)
        } else if player.id != s.active_player() {
            Err(CoreError::NotYourTurn)
        } else {
            Ok(UpdateView::CursorMoved(s.id, step(s.cursor, direction)))
        },
        InputKind::Confirm => if !is_active(sessions, player.id) {
            Err(CoreError::NotInGame)
        } else {
            match s.move_check(player.id, s.cursor) {
                Err(e) => Err(CoreError::from_session_spec(e)),
                Ok(()) => if s.after_move(s.cursor).outcome().is_terminal_spec() {
                    Ok(UpdateView::Finished(s.after_move(s.cursor)))
                } else {
                    Ok(UpdateView::TurnPassed(s.id))
                },
            }
        },
    }
}

/// The waiting slot after an input of `player`.
pub open spec fn slot_after_input(
    slot: Option<Player>,
    sessions: Seq<SessionView>,
    player: Player,
    kind: InputKind,
) -> Option<Player> {
    match kind {
        InputKind::StartGame => slot_after_join(slot, sessions, player),
        InputKind::Cancel => if input_result(slot, sessions, player, kind)
            == Ok::<UpdateView, CoreError>(UpdateView::WaitingCancelled) {
            None
        } else {
            slot
        },
        _ => slot,
    }
}

/// The live sessions after an input of `player`.
pub open spec fn sessions_after_input(
    slot: Option<Player>,
    sessions: Seq<SessionView>,
    player: Player,
    kind: InputKind,
) -> Seq<SessionView> {
    let i = session_index_of(sessions, player.id);
    match input_result(slot, sessions, player, kind) {
        Ok(UpdateView::Matched(_)) => sessions_after_join(slot, sessions, player),
        Ok(UpdateView::CursorMoved(_, cursor)) => sessions.update(
            i,
            SessionView { cursor, ..sessions[i] },
        ),
        Ok(UpdateView::TurnPassed(_)) => sessions.update(i, sessions[i].after_move(sessions[i].cursor)),
        Ok(UpdateView::Finished(_)) => sessions.remove(i),
        Ok(UpdateView::Stopped(_)) => sessions.remove(i),
        _ => sessions,
    }
}

/// An input leaves every live session in progress: a session whose
/// outcome becomes terminal leaves the registry with the move that ends it.
pub proof fn lemma_input_keeps_in_progress(
    slot: Option<Player>,
    sessions: Seq<SessionView>,
    player: Player,
    kind: InputKind,
)
    requires
        all_in_progress(sessions),
    ensures
        all_in_progress(sessions_after_input(slot, sessions, player, kind)),
{
    let after = sessions_after_input(slot, sessions, player, kind);
    let i = session_index_of(sessions, player.id);
    match input_result(slot, sessions, player, kind) {
        Ok(UpdateView::Matched(_)) => {
            lemma_join_keeps_in_progress(slot, sessions, player);
        },
        Ok(UpdateView::CursorMoved(_, _)) | Ok(UpdateView::TurnPassed(_)) => {
            lemma_session_index(sessions, player.id);
            assert forall|k: int| 0 <= k < after.len() implies (#[trigger] after[k]).outcome()
                == Outcome::InProgress by {
                if k != i {
                    assert(after[k] == sessions[k]);
                } else {
                    assert(sessions[i].outcome() == Outcome::InProgress);
                }
            }
        },
        Ok(UpdateView::Finished(_)) | Ok(UpdateView::Stopped(_)) => {
            lemma_session_index(sessions, player.id);
            assert forall|k: int| 0 <= k < after.len() implies (#[trigger] after[k]).outcome()
                == Outcome::InProgress by {
                if k < i {
                    assert(after[k] == sessions[k]);
                } else {
                    assert(after[k] == sessions[k + 1]);
                }
            }
        },
        _ => {},
    }
}

/// The answer `r` is the one that the model `expected` calls for.
pub open spec fn answers(r: Result<Update, CoreError>, expected: Result<UpdateView, CoreError>) -> bool {
    match r {
        Ok(update) => expected == Ok::<UpdateView, CoreError>(update@),
        Err(e) => expected == Err::<UpdateView, CoreError>(e),
    }
}

/// Interprets one input event against the lobby.
///
/// A refused input changes nothing. An accepted one changes the lobby as
/// `slot_after_input` and `sessions_after_input` say, and the update tells
/// the host what to show.
pub fn handle_input(
    matchmaker: &mut Matchmaker,
    registry: &mut SessionRegistry,
    player: &Player,
    kind: InputKind,
) -> (r: Result<Update, CoreError>)
    requires
        old(registry).wf(),
        slot_consistent(old(matchmaker)@, old(registry)@),
    ensures
        final(registry).wf(),
        slot_consistent(final(matchmaker)@, final(registry)@),
        answers(r, input_result(old(matchmaker)@, old(registry)@, *player, kind)),
        final(matchmaker)@ == slot_after_input(old(matchmaker)@, old(registry)@, *player, kind),
        final(registry)@ == sessions_after_input(old(matchmaker)@, old(registry)@, *player, kind),
        r is Err ==> final(matchmaker)@ == old(matchmaker)@ && final(registry)@ == old(registry)@,
        r != Err::<Update, CoreError>(CoreError::RenderSurfaceFailure),
        r != Err::<Update, CoreError>(CoreError::InvalidCell),
        r matches Ok(update) ==> update.wf(),
{
    match kind {
        InputKind::StartGame => {
            match matchmaker.request_join(registry, player.clone()) {
                JoinOutcome::BecameWaiting => Ok(Update::Waiting),
                JoinOutcome::MatchedInto(id) => Ok(Update::Matched(id)),
                JoinOutcome::Rejected(reason) => Err(CoreError::from_reject(reason)),
            }
        },
        InputKind::Cancel => {
            match registry.position_of_player(player.id) {
                Some(i) => {
                    let id = registry.session_at(i).id();
                    match registry.remove(id) {
                        Some(session) => Ok(Update::Stopped(session)),
                        None => vstd::pervasive::unreached(),
                    }
                },
                None => {
                    if matchmaker.cancel_waiting(player.id) {
                        Ok(Update::WaitingCancelled)
                    } else {
                        Err(CoreError::NotInGame)
                    }
                },
            }
        },
        InputKind::MoveCursor(direction) => {
            match registry.position_of_player(player.id) {
                None => Err(CoreError::NotInGame),
                Some(i) => {
                    let id = registry.session_at(i).id();
                    match registry.move_cursor_at(i, player.id, direction) {
                        Ok(cursor) => Ok(Update::CursorMoved(id, cursor)),
                        Err(e) => Err(CoreError::from_session(e)),
                    }
                },
            }
        },
        InputKind::Confirm => {
            match registry.position_of_player(player.id) {
                None => Err(CoreError::NotInGame),
                Some(i) => {
                    let id = registry.session_at(i).id();
                    let cursor = registry.session_at(i).cursor();
                    match registry.try_move_at(i, player.id, cursor) {
                        Err(e) => Err(CoreError::from_session(e)),
                        Ok(outcome) => {
                            if outcome.is_terminal() {
                                match registry.remove(id) {
                                    Some(session) => Ok(Update::Finished(session)),
                                    None => vstd::pervasive::unreached(),
                                }
                            } else {
                                Ok(Update::TurnPassed(id))
                            }
                        },
                    }
                },
            }
        },
    }
}

/// The renders that an update calls for, in order, given the registry as
/// the update left it.
pub fn renders_for(registry: &SessionRegistry, update: &Update) -> (plan: Vec<Render>)
    requires
        registry.wf(),
        update.wf(),
    ensures
        views_of(plan@) == renders_of(update@, registry@),
{
    let plan = match update {
        Update::Waiting => Vec::new(),
        Update::WaitingCancelled => Vec::new(),
        Update::Matched(id) => match registry.get(*id) {
            Some(session) => session.render_plan(),
            None => Vec::new(),
        },
        Update::TurnPassed(id) => match registry.get(*id) {
            Some(session) => session.render_plan(),
            None => Vec::new(),
        },
        Update::CursorMoved(id, _) => match registry.get(*id) {
            Some(session) => {
                let mut plan: Vec<Render> = Vec::new();
                plan.push(session.active_render());
                plan
            },
            None => Vec::new(),
        },
        Update::Finished(session) => session.render_plan(),
        Update::Stopped(session) => session.stop_plan(),
    };
    assert(views_of(plan@) =~= renders_of(update@, registry@));
    plan
}

} // verus!
