//! The game as the host sees it: the lobby, the two commands and the two
//! entry points for player actions.

use vstd::prelude::*;
use vstd::string::*;
use crate::board::{Cell, Outcome, line_held_by, lemma_move_completing_line_wins};
use crate::controller::{CoreError, InputKind, Update, UpdateView, answers, handle_input,
    input_result, lemma_input_keeps_in_progress, renders_for, renders_of, sessions_after_input,
    slot_after_input};
use crate::matchmaker::{JoinOutcome, Matchmaker, RejectReason, join_outcome,
    lemma_join_keeps_in_progress, sessions_after_join, slot_after_join, slot_consistent};
use crate::registry::{SessionRegistry, all_in_progress, has_id, is_active, lemma_remove_effects,
    lemma_session_index, registry_wf, session_index_of};
use crate::render::{Legend, Render, Surface, passive_render_of, views_of};
use crate::session::{Player, Session, SessionView};

verus! {

/// The name and the description under which a command is registered.
#[derive(Debug, PartialEq, Eq)]
pub struct CommandDescriptor {
    pub name: String,
    pub description: String,
}

/// One of the game's commands.
#[derive(Clone, Copy, Debug, PartialEq, Eq, Structural)]
pub enum Command {
    /// Ask for a game.
    Play,
    /// Leave the game or the waiting slot.
    Stop,
}

impl Command {
    /// The command that a name stands for.
    pub open spec fn named(name: Seq<char>) -> Option<Command> {
        if name == "play"@ {
            Some(Command::Play)
        } else if name == "stop"@ {
            Some(Command::Stop)
        } else {
            None
        }
    }

    /// The kind of input that the command is.
    pub open spec fn input_spec(self) -> InputKind {
        match self {
            Command::Play => InputKind::StartGame,
            Command::Stop => InputKind::Cancel,
        }
    }

    /// The command that `name` stands for, if any.
    pub fn parse(name: &str) -> (r: Option<Command>)
        ensures
            r == Command::named(name@),
    {
        let given = String::from_str(name);
        if given == String::from_str("play") {
            Some(Command::Play)
        } else if given == String::from_str("stop") {
            Some(Command::Stop)
        } else {
            None
        }
    }

    /// The kind of input that the command is.
    #[verifier::when_used_as_spec(input_spec)]
    pub fn input(self) -> (r: InputKind)
        ensures
            r == self.input_spec(),
    {
        match self {
            Command::Play => InputKind::StartGame,
            Command::Stop => InputKind::Cancel,
        }
    }
}

/// The mathematical model of the game: who waits, and the live sessions
/// in the order in which they were opened.
pub struct GameView {
    pub waiting: Option<Player>,
    pub sessions: Seq<SessionView>,
}

impl GameView {
    /// The invariant of the game: the registry is well formed, every live
    /// session is in progress, and the waiting player takes part in no
    /// session.
    pub open spec fn wf(self) -> bool {
        &&& registry_wf(self.sessions)
        &&& all_in_progress(self.sessions)
        &&& slot_consistent(self.waiting, self.sessions)
    }

    /// Whether `player` waits or plays.
    pub open spec fn is_engaged(self, player: u64) -> bool {
        (self.waiting matches Some(w) && w.id == player) || is_active(self.sessions, player)
    }
}

/// The waiting slot and the live sessions.
#[derive(Debug)]
pub struct Game {
    matchmaker: Matchmaker,
    registry: SessionRegistry,
}

impl View for Game {
    type V = GameView;

    closed spec fn view(&self) -> GameView {
        GameView { waiting: self.matchmaker@, sessions: self.registry@ }
    }
}

impl Game {
    /// The invariant of the game.
    pub open spec fn wf(&self) -> bool {
        self@.wf()
    }

    /// A game with nobody waiting and no session.
    pub fn new() -> (g: Game)
        ensures
            g.wf(),
            g@.waiting is None,
            g@.sessions == Seq::<SessionView>::empty(),
    {
        Game { matchmaker: Matchmaker::new(), registry: SessionRegistry::new() }
    }

    /// The descriptor of the command that asks for a game.
    pub fn register_play() -> (d: CommandDescriptor)
        ensures
            d.name@ == "play"@,
            d.description@ == "Start the game"@,
            Command::named(d.name@) == Some(Command::Play),
    {
        CommandDescriptor {
            name: String::from_str("play"),
            description: String::from_str("Start the game"),
        }
    }

    /// The descriptor of the command that leaves a game.
    pub fn register_stop() -> (d: CommandDescriptor)
        ensures
            d.name@ == "stop"@,
            d.description@ == "Stop the game"@,
            Command::named(d.name@) == Some(Command::Stop),
    {
        proof {
            reveal_strlit("play");
            reveal_strlit("stop");
            assert("play"@[0] != "stop"@[0]);
        }
        CommandDescriptor {
            name: String::from_str("stop"),
            description: String::from_str("Stop the game"),
        }
    }

    /// The descriptors of the game's commands: "play", then "stop".
    pub fn register_commands() -> (v: Vec<CommandDescriptor>)
        ensures
            v@.len() == 2,
            v@[0].name@ == "play"@,
            v@[0].description@ == "Start the game"@,
            v@[1].name@ == "stop"@,
            v@[1].description@ == "Stop the game"@,
    {
        let mut v: Vec<CommandDescriptor> = Vec::new();
        v.push(Game::register_play());
        v.push(Game::register_stop());
        v
    }

    /// The waiting player, if any.
    pub fn waiting(&self) -> (r: Option<&Player>)
        ensures
            match r {
                Some(w) => self@.waiting == Some(*w),
                None => self@.waiting is None,
            },
    {
        self.matchmaker.waiting()
    }

    /// The live sessions.
    pub fn registry(&self) -> (r: &SessionRegistry)
        ensures
            r@ == self@.sessions,
    {
        &self.registry
    }

    /// The session that `player` takes part in.
    pub fn find_by_player(&self, player: u64) -> (r: Option<&Session>)
        ensures
            match r {
                Some(s) => s@.is_participant(player) && self@.sessions.contains(s@),
                None => !is_active(self@.sessions, player),
            },
    {
        self.registry.find_by_player(player)
    }

    /// The session with identifier `id`.
    pub fn session(&self, id: u64) -> (r: Option<&Session>)
        ensures
            match r {
                Some(s) => s@.id == id && self@.sessions.contains(s@),
                None => !has_id(self@.sessions, id),
            },
    {
        self.registry.get(id)
    }

    /// Whether `player` waits for an opponent or takes part in a session.
    pub fn is_player_already_in_game(&self, player: u64) -> (r: bool)
        ensures
            r == self@.is_engaged(player),
    {
        self.matchmaker.is_waiting(player) || self.registry.is_player_active(player)
    }

    /// Handles a request of `player` for a game.
    ///
    /// A player in a live session is answered `Rejected(AlreadyInGame)` and
    /// one who waits `Rejected(AlreadyWaiting)`; nothing changes then. With
    /// another player waiting the two are matched into a new session, the
    /// waiting player first; with nobody waiting the requester waits.
    pub fn handle_start(&mut self, player: Player) -> (r: JoinOutcome)
        requires
            old(self).wf(),
        ensures
            final(self).wf(),
            r == join_outcome(old(self)@.waiting, old(self)@.sessions, player),
            final(self)@.waiting == slot_after_join(old(self)@.waiting, old(self)@.sessions, player),
            final(self)@.sessions == sessions_after_join(
                old(self)@.waiting,
                old(self)@.sessions,
                player,
            ),
            is_active(old(self)@.sessions, player.id) ==> r == JoinOutcome::Rejected(
                RejectReason::AlreadyInGame,
            ) && final(self)@ == old(self)@,
            r is Rejected ==> final(self)@ == old(self)@,
    {
        proof {
            lemma_join_keeps_in_progress(self@.waiting, self@.sessions, player);
        }
        self.matchmaker.request_join(&mut self.registry, player)
    }

    /// Handles an input of `player`.
    ///
    /// The answer and the change of the game are those of the turn
    /// controller. A refused input changes nothing.
    pub fn handle_input(&mut self, player: &Player, kind: InputKind) -> (r: Result<
        Update,
        CoreError,
    >)
        requires
            old(self).wf(),
        ensures
            final(self).wf(),
            answers(r, input_result(old(self)@.waiting, old(self)@.sessions, *player, kind)),
            final(self)@.waiting == slot_after_input(
                old(self)@.waiting,
                old(self)@.sessions,
                *player,
                kind,
            ),
            final(self)@.sessions == sessions_after_input(
                old(self)@.waiting,
                old(self)@.sessions,
                *player,
                kind,
            ),
            r is Err ==> final(self)@ == old(self)@,
            r matches Ok(update) ==> update.wf(),
            r != Err::<Update, CoreError>(CoreError::SessionEnded),
            kind is StartGame && is_active(old(self)@.sessions, player.id) ==> r == Err::<
                Update,
                CoreError,
            >(CoreError::AlreadyInGame),
    {
        proof {
            lemma_input_keeps_in_progress(self@.waiting, self@.sessions, *player, kind);
            if is_active(self@.sessions, player.id) {
                lemma_session_index(self@.sessions, player.id);
            }
        }
        handle_input(&mut self.matchmaker, &mut self.registry, player, kind)
    }

    /// The renders that an update calls for, in order. To be asked right
    /// after the input that gave the update, before the game changes again.
    pub fn renders_for(&self, update: &Update) -> (plan: Vec<Render>)
        requires
            self.wf(),
            update.wf(),
        ensures
            views_of(plan@) == renders_of(update@, self@.sessions),
    {
        renders_for(&self.registry, update)
    }

    /// Handles the command `name` given by `player`.
    ///
    /// "play" is a `StartGame` input and "stop" a `Cancel` input. Any other
    /// name is not a command of the game: the answer is `None` and nothing
    /// changes.
    pub fn command(&mut self, name: &str, player: &Player) -> (r: Option<Result<Update, CoreError>>)
        requires
            old(self).wf(),
        ensures
            final(self).wf(),
            match Command::named(name@) {
                None => r is None && final(self)@ == old(self)@,
                Some(c) => r matches Some(answer) && (answer matches Ok(update) ==> update.wf())
                    && answers(
                    answer,
                    input_result(old(self)@.waiting, old(self)@.sessions, *player, c.input_spec()),
                ) && final(self)@.waiting == slot_after_input(
                    old(self)@.waiting,
                    old(self)@.sessions,
                    *player,
                    c.input_spec(),
                ) && final(self)@.sessions == sessions_after_input(
                    old(self)@.waiting,
                    old(self)@.sessions,
                    *player,
                    c.input_spec(),
                ),
            },
    {
        match Command::parse(name) {
            None => None,
            Some(c) => Some(self.handle_input(player, c.input())),
        }
    }
}

/// Confirm by the player to move on a taken square is refused with
/// `CellOccupied` and leaves the game as it was; so the same input, given
/// again, meets the same game and the same answer.
pub proof fn lemma_confirm_on_taken_square(g: GameView, player: Player)
    requires
        g.wf(),
        is_active(g.sessions, player.id),
        ({
            let s = g.sessions[session_index_of(g.sessions, player.id)];
            player.id == s.active_player() && s.cells[s.cursor] != Cell::Empty
        }),
    ensures
        input_result(g.waiting, g.sessions, player, InputKind::Confirm) == Err::<
            UpdateView,
            CoreError,
        >(CoreError::CellOccupied),
        slot_after_input(g.waiting, g.sessions, player, InputKind::Confirm) == g.waiting,
        sessions_after_input(g.waiting, g.sessions, player, InputKind::Confirm) == g.sessions,
{
    lemma_session_index(g.sessions, player.id);
}

/// Confirm by the player to move on an empty square that completes line
/// `k` with that player's mark is accepted and ends the game with a win for
/// that mark, whether or not the board is full afterwards. The session
/// leaves the registry, its two players are free again, and both are shown
/// the final board.
pub proof fn lemma_confirm_completing_a_line(g: GameView, player: Player, k: int)
    requires
        g.wf(),
        is_active(g.sessions, player.id),
        0 <= k < 8,
        ({
            let s = g.sessions[session_index_of(g.sessions, player.id)];
            &&& player.id == s.active_player()
            &&& s.cells[s.cursor] == Cell::Empty
            &&& line_held_by(s.after_move(s.cursor).cells, k, s.turn.mark_spec())
        }),
    ensures
        ({
            let i = session_index_of(g.sessions, player.id);
            let s = g.sessions[i];
            let t = s.after_move(s.cursor);
            let won = Outcome::Win(s.turn.mark_spec());
            let left = sessions_after_input(g.waiting, g.sessions, player, InputKind::Confirm);
            let shown = renders_of(UpdateView::Finished(t), left);
            &&& t.outcome() == won
            &&& input_result(g.waiting, g.sessions, player, InputKind::Confirm) == Ok::<
                UpdateView,
                CoreError,
            >(UpdateView::Finished(t))
            &&& left == g.sessions.remove(i)
            &&& !is_active(left, s.first.id)
            &&& !is_active(left, s.second.id)
            &&& shown[0] == passive_render_of(t, Surface::Private(s.first.id), Legend::Finished(won))
            &&& shown[1] == passive_render_of(t, Surface::Private(s.second.id), Legend::Finished(won))
        }),
{
    lemma_session_index(g.sessions, player.id);
    let i = session_index_of(g.sessions, player.id);
    let s = g.sessions[i];
    assert(s.wf() && s.outcome() == Outcome::InProgress);
    lemma_move_completing_line_wins(s.cells, s.cursor, s.turn.mark_spec(), k);
    lemma_remove_effects(g.sessions, i);
}

} // verus!
