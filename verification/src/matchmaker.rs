//! The single waiting slot and the pairing of players into sessions.
//!
//! The lobby is modelled by the optional waiting player together with the
//! sequence of live sessions; `join_outcome`, `slot_after_join` and
//! `sessions_after_join` say what a join request does to it.

use vstd::prelude::*;
use crate::board::Outcome;
use crate::registry::{SessionRegistry, all_in_progress, fresh_id_of, is_active,
    lemma_fresh_id_exists, lemma_insert_effects, registry_wf};
use crate::session::{Player, Session, SessionView, lemma_fresh_session_wf};

verus! {

/// Why a join request was turned down.
#[derive(Clone, Copy, Debug, PartialEq, Eq, Structural)]
pub enum RejectReason {
    /// The requester takes part in a live session.
    AlreadyInGame,
    /// The requester already holds the waiting slot.
    AlreadyWaiting,
}

/// What a join request led to.
#[derive(Clone, Copy, Debug, PartialEq, Eq, Structural)]
pub enum JoinOutcome {
    /// The requester now holds the waiting slot.
    BecameWaiting,
    /// The requester was paired with the waiting player in the session with
    /// this identifier.
    MatchedInto(u64),
    /// Nothing changed.
    Rejected(RejectReason),
}

/// The waiting player, if any, takes part in no live session.
pub open spec fn slot_consistent(slot: Option<Player>, sessions: Seq<SessionView>) -> bool {
    slot matches Some(w) ==> !is_active(sessions, w.id)
}

/// The answer to a join request of `player`.
pub open spec fn join_outcome(
    slot: Option<Player>,
    sessions: Seq<SessionView>,
    player: Player,
) -> JoinOutcome {
    if is_active(sessions, player.id) {
        JoinOutcome::Rejected(RejectReason::AlreadyInGame)
    } else {
        match slot {
            None => JoinOutcome::BecameWaiting,
            Some(w) => if w.id == player.id {
                JoinOutcome::Rejected(RejectReason::AlreadyWaiting)
            } else {
                JoinOutcome::MatchedInto(fresh_id_of(sessions))
            },
        }
    }
}

/// The waiting slot after a join request of `player`.
pub open spec fn slot_after_join(
    slot: Option<Player>,
    sessions: Seq<SessionView>,
    player: Player,
) -> Option<Player> {
    match join_outcome(slot, sessions, player) {
        JoinOutcome::BecameWaiting => Some(player),
        JoinOutcome::MatchedInto(_) => None,
        JoinOutcome::Rejected(_) => slot,
    }
}

/// The live sessions after a join request of `player`: a match appends a
/// fresh session with the waiting player in the first seat and the
/// requester in the second.
pub open spec fn sessions_after_join(
    slot: Option<Player>,
    sessions: Seq<SessionView>,
    player: Player,
) -> Seq<SessionView> {
    match join_outcome(slot, sessions, player) {
        JoinOutcome::MatchedInto(id) => sessions.push(SessionView::fresh(id, slot->0, player)),
        _ => sessions,
    }
}

/// Holder of the waiting slot.
#[derive(Debug)]
pub struct Matchmaker {
    slot: Option<Player>,
}

impl View for Matchmaker {
    type V = Option<Player>;

    closed spec fn view(&self) -> Option<Player> {
        self.slot
    }
}

impl Matchmaker {
    /// A matchmaker with nobody waiting.
    pub fn new() -> (m: Matchmaker)
        ensures
            m@ is None,
    {
        Matchmaker { slot: None }
    }

    /// The waiting player, if any.
    pub fn waiting(&self) -> (r: Option<&Player>)
        ensures
            match r {
                Some(w) => self@ == Some(*w),
                None => self@ is None,
            },
    {
        self.slot.as_ref()
    }

    /// Whether `player` holds the waiting slot.
    pub fn is_waiting(&self, player: u64) -> (r: bool)
        ensures
            r == (self@ matches Some(w) && w.id == player),
    {
        match &self.slot {
            Some(w) => w.id == player,
            None => false,
        }
    }

    /// Handles a join request.
    ///
    /// A player who takes part in a live session, or who already waits, is
    /// turned down and nothing changes. With another player waiting the slot
    /// is consumed and the two are registered as a new session, the waiting
    /// player first. With nobody waiting the requester takes the slot.
    pub fn request_join(&mut self, registry: &mut SessionRegistry, player: Player) -> (r:
        JoinOutcome)
        requires
            old(registry).wf(),
            slot_consistent(old(self)@, old(registry)@),
        ensures
            final(registry).wf(),
            slot_consistent(final(self)@, final(registry)@),
            r == join_outcome(old(self)@, old(registry)@, player),
            final(self)@ == slot_after_join(old(self)@, old(registry)@, player),
            final(registry)@ == sessions_after_join(old(self)@, old(registry)@, player),
            is_active(old(registry)@, player.id) ==> r == JoinOutcome::Rejected(
                RejectReason::AlreadyInGame,
            ) && final(self)@ == old(self)@ && final(registry)@ == old(registry)@,
    {
        if registry.is_player_active(player.id) {
            return JoinOutcome::Rejected(RejectReason::AlreadyInGame);
        }
        match self.slot.take() {
            None => {
                self.slot = Some(player);
                JoinOutcome::BecameWaiting
            },
            Some(w) => {
                if w.id == player.id {
                    self.slot = Some(w);
                    JoinOutcome::Rejected(RejectReason::AlreadyWaiting)
                } else {
                    let id = registry.fresh_id();
                    let session = Session::new(id, w, player);
                    proof {
                        lemma_insert_effects(registry@, session@);
                    }
                    let inserted = registry.insert(session);
                    assert(inserted);
                    JoinOutcome::MatchedInto(id)
                }
            },
        }
    }

    /// Withdraws the waiting slot if `player` holds it; says whether it did.
    pub fn cancel_waiting(&mut self, player: u64) -> (r: bool)
        ensures
            r == (old(self)@ matches Some(w) && w.id == player),
            r ==> final(self)@ is None,
            !r ==> final(self)@ == old(self)@,
    {
        if self.is_waiting(player) {
            self.slot = None;
            true
        } else {
            false
        }
    }
}

/// A player who takes part in a live session is turned down with
/// `AlreadyInGame`, whoever waits and whichever session holds the player,
/// and the lobby stays as it was.
pub proof fn lemma_active_player_is_rejected(
    slot: Option<Player>,
    sessions: Seq<SessionView>,
    player: Player,
    i: int,
)
    requires
        0 <= i < sessions.len(),
        sessions[i].is_participant(player.id),
    ensures
        join_outcome(slot, sessions, player) == JoinOutcome::Rejected(RejectReason::AlreadyInGame),
        slot_after_join(slot, sessions, player) == slot,
        sessions_after_join(slot, sessions, player) == sessions,
{
}

/// Two join requests of distinct players, neither in a live session, with
/// nobody waiting: the first takes the waiting slot and the second is
/// matched against it. Afterwards nobody waits, and the two share one new
/// session with the first requester in the first seat.
pub proof fn lemma_two_joins_pair_up(sessions: Seq<SessionView>, p: Player, q: Player)
    requires
        registry_wf(sessions),
        p.id != q.id,
        !is_active(sessions, p.id),
        !is_active(sessions, q.id),
    ensures
        join_outcome(None, sessions, p) == JoinOutcome::BecameWaiting,
        slot_after_join(None, sessions, p) == Some(p),
        sessions_after_join(None, sessions, p) == sessions,
        join_outcome(Some(p), sessions, q) == JoinOutcome::MatchedInto(fresh_id_of(sessions)),
        slot_after_join(Some(p), sessions, q) is None,
        sessions_after_join(Some(p), sessions, q) == sessions.push(
            SessionView::fresh(fresh_id_of(sessions), p, q),
        ),
        is_active(sessions_after_join(Some(p), sessions, q), p.id),
        is_active(sessions_after_join(Some(p), sessions, q), q.id),
{
    let after = sessions.push(SessionView::fresh(fresh_id_of(sessions), p, q));
    assert(after[sessions.len() as int].is_participant(p.id));
    assert(after[sessions.len() as int].is_participant(q.id));
}

/// A join request leaves every live session in progress: the one it may
/// open starts on an empty board.
pub proof fn lemma_join_keeps_in_progress(
    slot: Option<Player>,
    sessions: Seq<SessionView>,
    player: Player,
)
    requires
        all_in_progress(sessions),
    ensures
        all_in_progress(sessions_after_join(slot, sessions, player)),
{
    let after = sessions_after_join(slot, sessions, player);
    if join_outcome(slot, sessions, player) is MatchedInto {
        lemma_fresh_session_wf(fresh_id_of(sessions), slot->0, player);
        assert forall|i: int| 0 <= i < after.len() implies (#[trigger] after[i]).outcome()
            == Outcome::InProgress by {
            if i < sessions.len() {
                assert(after[i] == sessions[i]);
            }
        }
    }
}

/// A join request keeps the lobby invariant: the registry stays well
/// formed and the waiting player, if any, stays out of every session.
pub proof fn lemma_join_keeps_invariant(
    slot: Option<Player>,
    sessions: Seq<SessionView>,
    player: Player,
)
    requires
        registry_wf(sessions),
        slot_consistent(slot, sessions),
        sessions.len() <= u64::MAX,
    ensures
        registry_wf(sessions_after_join(slot, sessions, player)),
        slot_consistent(
            slot_after_join(slot, sessions, player),
            sessions_after_join(slot, sessions, player),
        ),
{
    if join_outcome(slot, sessions, player) is MatchedInto {
        let id = fresh_id_of(sessions);
        lemma_fresh_id_exists(sessions);
        let session = SessionView::fresh(id, slot->0, player);
        lemma_fresh_session_wf(id, slot->0, player);
        lemma_insert_effects(sessions, session);
    }
}

} // verus!
