//! What is to be shown after a change of a session, and to whom.
//!
//! Drawing and delivery belong to the host. The library only decides the
//! list of renders: for each surface the board snapshot, the highlighted
//! square if any, and the legend.

use vstd::prelude::*;
use crate::board::{Cell, Outcome, is_full, lemma_first_empty_exists};
use crate::session::{Session, SessionView, SurfaceLayout, default_cursor};

verus! {

/// A place where a render is shown.
#[derive(Clone, Copy, Debug, PartialEq, Eq, Structural)]
pub enum Surface {
    /// The private view of the player with this identity.
    Private(u64),
    /// The public message in the channel with this identifier.
    Channel(u64),
}

/// What a render tells its viewer.
#[derive(Clone, Copy, Debug, PartialEq, Eq, Structural)]
pub enum Legend {
    /// The viewer is to move.
    YourTurn,
    /// The viewer waits for the opponent.
    WaitingForTurn,
    /// A game between the two players is under way.
    InProgress,
    /// The game ended with this outcome.
    Finished(Outcome),
    /// A player stopped the game.
    Stopped,
}

/// One render: a board snapshot for one surface.
#[derive(Clone, Copy, Debug, PartialEq, Eq)]
pub struct Render {
    pub surface: Surface,
    pub board: [Cell; 9],
    pub highlight: Option<usize>,
    pub legend: Legend,
    /// Whether the viewer may confirm a move on the highlighted square.
    pub confirm_enabled: bool,
}

impl Render {
    /// Whether the viewer may use the cursor buttons: only the player who
    /// is told to move may.
    pub fn controls_enabled(&self) -> (r: bool)
        ensures
            r == (self.legend == Legend::YourTurn),
    {
        match self.legend {
            Legend::YourTurn => true,
            _ => false,
        }
    }
}

/// The mathematical model of a render.
pub struct RenderView {
    pub surface: Surface,
    pub cells: Seq<Cell>,
    pub highlight: Option<int>,
    pub legend: Legend,
    pub confirm_enabled: bool,
}

impl View for Render {
    type V = RenderView;

    open spec fn view(&self) -> RenderView {
        RenderView {
            surface: self.surface,
            cells: self.board@,
            highlight: match self.highlight {
                Some(i) => Some(i as int),
                None => None,
            },
            legend: self.legend,
            confirm_enabled: self.confirm_enabled,
        }
    }
}

/// The render for the player to move: the cursor is highlighted, and a
/// move can be confirmed when the square under it is empty.
pub open spec fn active_render_of(s: SessionView) -> RenderView {
    RenderView {
        surface: Surface::Private(s.active_player()),
        cells: s.cells,
        highlight: Some(s.cursor),
        legend: Legend::YourTurn,
        confirm_enabled: s.cells[s.cursor] == Cell::Empty,
    }
}

/// A render without highlight and without confirmation.
pub open spec fn passive_render_of(s: SessionView, surface: Surface, legend: Legend) -> RenderView {
    RenderView { surface, cells: s.cells, highlight: None, legend, confirm_enabled: false }
}

/// The renders for the public messages: with separate surfaces the one for
/// the second player's channel, and in any case the one for the first
/// player's channel.
pub open spec fn channel_renders_of(s: SessionView, legend: Legend) -> Seq<RenderView> {
    let first = passive_render_of(s, Surface::Channel(s.first.channel), legend);
    match s.layout {
        SurfaceLayout::Shared => seq![first],
        SurfaceLayout::Separate => seq![
            passive_render_of(s, Surface::Channel(s.second.channel), legend),
            first,
        ],
    }
}

/// All renders that the state of a session calls for, in order.
///
/// While the game is on: "your turn" for the player to move, "waiting" for
/// the other, then the public messages. Once it is over: the final board
/// for the first player, for the second, then the public messages.
pub open spec fn render_plan_of(s: SessionView) -> Seq<RenderView> {
    if s.outcome().is_terminal_spec() {
        let legend = Legend::Finished(s.outcome());
        seq![
            passive_render_of(s, Surface::Private(s.first.id), legend),
            passive_render_of(s, Surface::Private(s.second.id), legend),
        ] + channel_renders_of(s, legend)
    } else {
        seq![
            active_render_of(s),
            passive_render_of(s, Surface::Private(s.waiting_player()), Legend::WaitingForTurn),
        ] + channel_renders_of(s, Legend::InProgress)
    }
}

/// The renders that tell of a stopped session: the board as it was left,
/// for the first player, for the second, then the public messages.
pub open spec fn stop_plan_of(s: SessionView) -> Seq<RenderView> {
    seq![
        passive_render_of(s, Surface::Private(s.first.id), Legend::Stopped),
        passive_render_of(s, Surface::Private(s.second.id), Legend::Stopped),
    ] + channel_renders_of(s, Legend::Stopped)
}

/// The models of a list of renders.
pub open spec fn views_of(renders: Seq<Render>) -> Seq<RenderView> {
    Seq::new(renders.len(), |i: int| renders[i]@)
}

impl Session {
    /// The render for the player to move.
    pub fn active_render(&self) -> (r: Render)
        requires
            self.wf(),
        ensures
            r@ == active_render_of(self@),
    {
        let board = self.board().cells();
        Render {
            surface: Surface::Private(self.active_player()),
            board,
            highlight: Some(self.cursor()),
            legend: Legend::YourTurn,
            confirm_enabled: board[self.cursor()] == Cell::Empty,
        }
    }

    /// Appends the renders for the public messages to `plan`.
    fn push_channel_renders(&self, plan: &mut Vec<Render>, legend: Legend)
        ensures
            views_of(final(plan)@) == views_of(old(plan)@) + channel_renders_of(self@, legend),
    {
        let board = self.board().cells();
        match self.layout() {
            SurfaceLayout::Shared => {},
            SurfaceLayout::Separate => {
                plan.push(passive_render(board, Surface::Channel(self.second().channel), legend));
            },
        }
        plan.push(passive_render(board, Surface::Channel(self.first().channel), legend));
        assert(views_of(plan@) =~= views_of(old(plan)@) + channel_renders_of(self@, legend));
    }

    /// All renders that the state of the session calls for, in order.
    pub fn render_plan(&self) -> (plan: Vec<Render>)
        requires
            self.wf(),
        ensures
            views_of(plan@) == render_plan_of(self@),
    {
        let board = self.board().cells();
        let outcome = self.outcome();
        let mut plan: Vec<Render> = Vec::new();
        let legend = if outcome.is_terminal() {
            let legend = Legend::Finished(outcome);
            plan.push(passive_render(board, Surface::Private(self.first().id), legend));
            plan.push(passive_render(board, Surface::Private(self.second().id), legend));
            legend
        } else {
            plan.push(self.active_render());
            plan.push(
                passive_render(board, Surface::Private(self.waiting_player()), Legend::WaitingForTurn),
            );
            Legend::InProgress
        };
        let ghost players = views_of(plan@);
        self.push_channel_renders(&mut plan, legend);
        assert(views_of(plan@) =~= render_plan_of(self@)) by {
            assert(players =~= render_plan_of(self@).subrange(0, 2));
        }
        plan
    }

    /// The renders that tell of the session being stopped, in order.
    pub fn stop_plan(&self) -> (plan: Vec<Render>)
        ensures
            views_of(plan@) == stop_plan_of(self@),
    {
        let board = self.board().cells();
        let mut plan: Vec<Render> = Vec::new();
        plan.push(passive_render(board, Surface::Private(self.first().id), Legend::Stopped));
        plan.push(passive_render(board, Surface::Private(self.second().id), Legend::Stopped));
        let ghost players = views_of(plan@);
        self.push_channel_renders(&mut plan, Legend::Stopped);
        assert(views_of(plan@) =~= stop_plan_of(self@)) by {
            assert(players =~= stop_plan_of(self@).subrange(0, 2));
        }
        plan
    }
}

/// What an accepted move leads to being shown. While the game goes on,
/// the player who waited is told "your turn", with the cursor on its
/// default square and a move there open to confirmation, and the player
/// who moved is told to wait. When the move ends the game, both are shown
/// the final board.
pub proof fn lemma_renders_after_move(s: SessionView, index: int)
    requires
        s.wf(),
        s.move_check(s.active_player(), index) is Ok,
    ensures
        ({
            let t = s.after_move(index);
            let plan = render_plan_of(t);
            if t.outcome().is_terminal_spec() {
                &&& plan[0] == passive_render_of(
                    t,
                    Surface::Private(s.first.id),
                    Legend::Finished(t.outcome()),
                )
                &&& plan[1] == passive_render_of(
                    t,
                    Surface::Private(s.second.id),
                    Legend::Finished(t.outcome()),
                )
            } else {
                &&& plan[0].surface == Surface::Private(s.waiting_player())
                &&& plan[0].legend == Legend::YourTurn
                &&& plan[0].highlight == Some(default_cursor(t.cells))
                &&& plan[0].confirm_enabled
                &&& plan[1].surface == Surface::Private(s.active_player())
                &&& plan[1].legend == Legend::WaitingForTurn
                &&& plan[1].highlight is None
            }
        }),
{
    let t = s.after_move(index);
    if !t.outcome().is_terminal_spec() {
        assert(!is_full(t.cells));
        let i = choose|i: int| 0 <= i < 9 && t.cells[i] == Cell::Empty;
        lemma_first_empty_exists(t.cells, i);
    }
}

/// A render without highlight and without confirmation.
fn passive_render(board: [Cell; 9], surface: Surface, legend: Legend) -> (r: Render)
    ensures
        r@ == (RenderView {
            surface,
            cells: board@,
            highlight: None,
            legend,
            confirm_enabled: false,
        }),
{
    Render { surface, board, highlight: None, legend, confirm_enabled: false }
}

} // verus!
