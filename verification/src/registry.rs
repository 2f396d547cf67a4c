//! The ordered collection of live sessions.
//!
//! The registry is modelled as a sequence of session models in insertion
//! order. Its invariant says that no identifier and no player occurs in two
//! sessions, so a lookup by player or by identifier has at most one answer.

use vstd::prelude::*;
use crate::board::Outcome;
use crate::session::{Direction, Session, SessionError, SessionView};

verus! {

/// `player` takes part in one of the sessions.
pub open spec fn is_active(sessions: Seq<SessionView>, player: u64) -> bool {
    exists|i: int| 0 <= i < sessions.len() && (#[trigger] sessions[i]).is_participant(player)
}

/// Session `i` is the first that `player` takes part in.
pub open spec fn is_first_session_of(sessions: Seq<SessionView>, player: u64, i: int) -> bool {
    &&& 0 <= i < sessions.len()
    &&& sessions[i].is_participant(player)
    &&& forall|j: int| 0 <= j < i ==> !(#[trigger] sessions[j]).is_participant(player)
}

/// The position of the session that `player` takes part in.
pub open spec fn session_index_of(sessions: Seq<SessionView>, player: u64) -> int {
    choose|i: int| is_first_session_of(sessions, player, i)
}

/// Every session is in progress.
pub open spec fn all_in_progress(sessions: Seq<SessionView>) -> bool {
    forall|i: int|
        0 <= i < sessions.len() ==> (#[trigger] sessions[i]).outcome() == Outcome::InProgress
}

/// One of the sessions carries the identifier `id`.
pub open spec fn has_id(sessions: Seq<SessionView>, id: u64) -> bool {
    exists|i: int| 0 <= i < sessions.len() && (#[trigger] sessions[i]).id == id
}

/// Session `i` is the first that carries the identifier `id`.
pub open spec fn is_first_with_id(sessions: Seq<SessionView>, id: u64, i: int) -> bool {
    &&& 0 <= i < sessions.len()
    &&& sessions[i].id == id
    &&& forall|j: int| 0 <= j < i ==> (#[trigger] sessions[j]).id != id
}

/// The position of the session that carries the identifier `id`.
pub open spec fn index_of_id(sessions: Seq<SessionView>, id: u64) -> int {
    choose|i: int| is_first_with_id(sessions, id, i)
}

/// Two sessions share neither their identifier nor a player.
pub open spec fn disjoint(a: SessionView, b: SessionView) -> bool {
    &&& a.id != b.id
    &&& !a.is_participant(b.first.id)
    &&& !a.is_participant(b.second.id)
}

/// The invariant of the registry: every session is well formed and any two
/// sessions are disjoint.
pub open spec fn registry_wf(sessions: Seq<SessionView>) -> bool {
    &&& forall|i: int| 0 <= i < sessions.len() ==> (#[trigger] sessions[i]).wf()
    &&& forall|i: int, j: int|
        0 <= i < sessions.len() && 0 <= j < sessions.len() && i != j ==> disjoint(
            #[trigger] sessions[i],
            #[trigger] sessions[j],
        )
}

/// A session can join the collection when its identifier is unused and
/// neither of its players is active.
pub open spec fn can_insert(sessions: Seq<SessionView>, session: SessionView) -> bool {
    &&& !has_id(sessions, session.id)
    &&& !is_active(sessions, session.first.id)
    &&& !is_active(sessions, session.second.id)
}

/// `id` is the smallest identifier that no session carries.
pub open spec fn is_fresh_id(sessions: Seq<SessionView>, id: u64) -> bool {
    &&& !has_id(sessions, id)
    &&& forall|j: u64| j < id ==> has_id(sessions, j)
}

/// The smallest identifier that no session carries.
pub open spec fn fresh_id_of(sessions: Seq<SessionView>) -> u64 {
    choose|id: u64| is_fresh_id(sessions, id)
}

/// Before a session that `player` takes part in there is a first such.
proof fn lemma_first_session_exists(sessions: Seq<SessionView>, player: u64, i: int)
    requires
        0 <= i < sessions.len(),
        sessions[i].is_participant(player),
    ensures
        exists|f: int| is_first_session_of(sessions, player, f),
    decreases i,
{
    if exists|j: int| 0 <= j < i && (#[trigger] sessions[j]).is_participant(player) {
        let j = choose|j: int| 0 <= j < i && (#[trigger] sessions[j]).is_participant(player);
        lemma_first_session_exists(sessions, player, j);
    } else {
        assert(is_first_session_of(sessions, player, i));
    }
}

/// An active player has a session, and `session_index_of` is its place.
pub proof fn lemma_session_index(sessions: Seq<SessionView>, player: u64)
    requires
        is_active(sessions, player),
    ensures
        is_first_session_of(sessions, player, session_index_of(sessions, player)),
{
    let i = choose|i: int| 0 <= i < sessions.len() && (#[trigger] sessions[i]).is_participant(player);
    lemma_first_session_exists(sessions, player, i);
}

/// Sessions that carry all of the identifiers below `n` are at least `n`
/// in number.
proof fn lemma_ids_need_room(sessions: Seq<SessionView>, n: int)
    requires
        0 <= n <= u64::MAX + 1,
        forall|j: u64| j < n ==> has_id(sessions, j),
    ensures
        sessions.len() >= n,
    decreases n,
{
    if n > 0 {
        let top = (n - 1) as u64;
        assert(has_id(sessions, top));
        let i = choose|i: int| 0 <= i < sessions.len() && (#[trigger] sessions[i]).id == top;
        let rest = sessions.remove(i);
        assert forall|j: u64| j < n - 1 implies has_id(rest, j) by {
            assert(has_id(sessions, j));
            let w = choose|w: int| 0 <= w < sessions.len() && (#[trigger] sessions[w]).id == j;
            if w < i {
                assert(rest[w].id == j);
            } else {
                assert(rest[w - 1].id == j);
            }
        }
        lemma_ids_need_room(rest, n - 1);
    }
}

/// Below the first `k` identifiers, all in use, an unused one is found by
/// counting up.
proof fn lemma_fresh_id_search(sessions: Seq<SessionView>, k: int)
    requires
        sessions.len() <= u64::MAX,
        0 <= k <= sessions.len(),
        forall|j: u64| j < k ==> has_id(sessions, j),
    ensures
        exists|id: u64| is_fresh_id(sessions, id),
    decreases sessions.len() - k,
{
    if has_id(sessions, k as u64) {
        lemma_ids_need_room(sessions, k + 1);
        lemma_fresh_id_search(sessions, k + 1);
    } else {
        assert(is_fresh_id(sessions, k as u64));
    }
}

/// A collection that a machine can hold leaves an identifier unused, and
/// `fresh_id_of` is the smallest such.
pub proof fn lemma_fresh_id_exists(sessions: Seq<SessionView>)
    requires
        sessions.len() <= u64::MAX,
    ensures
        is_fresh_id(sessions, fresh_id_of(sessions)),
{
    lemma_fresh_id_search(sessions, 0);
}

/// Removing a session removes its identifier and its two players from the
/// collection and nothing else, and keeps the invariant.
pub proof fn lemma_remove_effects(sessions: Seq<SessionView>, i: int)
    requires
        registry_wf(sessions),
        0 <= i < sessions.len(),
    ensures
        registry_wf(sessions.remove(i)),
        forall|id: u64| has_id(sessions.remove(i), id) <==> has_id(sessions, id) && id != sessions[i].id,
        forall|p: u64|
            is_active(sessions.remove(i), p) <==> is_active(sessions, p) && !sessions[i].is_participant(
                p,
            ),
{
    let rest = sessions.remove(i);
    assert forall|k: int| 0 <= k < rest.len() implies #[trigger] rest[k] == sessions[if k < i {
        k
    } else {
        k + 1
    }] by {}
    assert forall|id: u64| has_id(rest, id) <==> has_id(sessions, id) && id != sessions[i].id by {
        if has_id(rest, id) {
            let k = choose|k: int| 0 <= k < rest.len() && (#[trigger] rest[k]).id == id;
            let w = if k < i {
                k
            } else {
                k + 1
            };
            assert(sessions[w].id == id);
            assert(disjoint(sessions[w], sessions[i]));
        }
        if has_id(sessions, id) && id != sessions[i].id {
            let w = choose|w: int| 0 <= w < sessions.len() && (#[trigger] sessions[w]).id == id;
            if w < i {
                assert(rest[w].id == id);
            } else {
                assert(rest[w - 1].id == id);
            }
        }
    }
    assert forall|p: u64|
        is_active(rest, p) <==> is_active(sessions, p) && !sessions[i].is_participant(p) by {
        if is_active(rest, p) {
            let k = choose|k: int| 0 <= k < rest.len() && (#[trigger] rest[k]).is_participant(p);
            let w = if k < i {
                k
            } else {
                k + 1
            };
            assert(sessions[w].is_participant(p));
            assert(disjoint(sessions[i], sessions[w]));
        }
        if is_active(sessions, p) && !sessions[i].is_participant(p) {
            let w = choose|w: int|
                0 <= w < sessions.len() && (#[trigger] sessions[w]).is_participant(p);
            if w < i {
                assert(rest[w].is_participant(p));
            } else {
                assert(rest[w - 1].is_participant(p));
            }
        }
    }
    assert forall|a: int, b: int|
        0 <= a < rest.len() && 0 <= b < rest.len() && a != b implies disjoint(
        #[trigger] rest[a],
        #[trigger] rest[b],
    ) by {
        let wa = if a < i {
            a
        } else {
            a + 1
        };
        let wb = if b < i {
            b
        } else {
            b + 1
        };
        assert(disjoint(sessions[wa], sessions[wb]));
    }
}

/// Appending a session that can be inserted adds its identifier and its
/// two players to the collection and nothing else, and keeps the invariant.
pub proof fn lemma_insert_effects(sessions: Seq<SessionView>, session: SessionView)
    requires
        registry_wf(sessions),
        session.wf(),
        can_insert(sessions, session),
    ensures
        registry_wf(sessions.push(session)),
        forall|id: u64| has_id(sessions.push(session), id) <==> has_id(sessions, id) || id == session.id,
        forall|p: u64|
            is_active(sessions.push(session), p) <==> is_active(sessions, p) || session.is_participant(
                p,
            ),
{
    let more = sessions.push(session);
    let last = sessions.len() as int;
    assert(more[last] == session);
    assert forall|k: int| 0 <= k < sessions.len() implies #[trigger] more[k] == sessions[k] by {}
    assert forall|id: u64| has_id(more, id) <==> has_id(sessions, id) || id == session.id by {
        if has_id(sessions, id) {
            let w = choose|w: int| 0 <= w < sessions.len() && (#[trigger] sessions[w]).id == id;
            assert(more[w].id == id);
        }
        if has_id(more, id) && id != session.id {
            let w = choose|w: int| 0 <= w < more.len() && (#[trigger] more[w]).id == id;
            assert(sessions[w].id == id);
        }
    }
    assert forall|p: u64|
        is_active(more, p) <==> is_active(sessions, p) || session.is_participant(p) by {
        if is_active(sessions, p) {
            let w = choose|w: int|
                0 <= w < sessions.len() && (#[trigger] sessions[w]).is_participant(p);
            assert(more[w].is_participant(p));
        }
        if session.is_participant(p) {
            assert(more[last].is_participant(p));
        }
        if is_active(more, p) && !session.is_participant(p) {
            let w = choose|w: int| 0 <= w < more.len() && (#[trigger] more[w]).is_participant(p);
            assert(sessions[w].is_participant(p));
        }
    }
    assert forall|a: int, b: int|
        0 <= a < more.len() && 0 <= b < more.len() && a != b implies disjoint(
        #[trigger] more[a],
        #[trigger] more[b],
    ) by {
        if a < last && b < last {
            assert(disjoint(sessions[a], sessions[b]));
        } else if a == last {
            assert(sessions[b].id == more[b].id);
            assert(sessions[b].is_participant(more[b].first.id));
            assert(sessions[b].is_participant(more[b].second.id));
        } else {
            assert(sessions[a].id == more[a].id);
            assert(sessions[a].is_participant(more[a].first.id));
        }
    }
}

/// Replacing a session by one with the same identifier and players keeps
/// the invariant, the identifiers in use and the active players.
pub proof fn lemma_update_effects(sessions: Seq<SessionView>, i: int, session: SessionView)
    requires
        registry_wf(sessions),
        0 <= i < sessions.len(),
        session.wf(),
        session.id == sessions[i].id,
        session.first == sessions[i].first,
        session.second == sessions[i].second,
    ensures
        registry_wf(sessions.update(i, session)),
        forall|id: u64| has_id(sessions.update(i, session), id) <==> has_id(sessions, id),
        forall|p: u64| is_active(sessions.update(i, session), p) <==> is_active(sessions, p),
{
    let next = sessions.update(i, session);
    assert forall|id: u64| has_id(next, id) <==> has_id(sessions, id) by {
        if has_id(sessions, id) {
            let w = choose|w: int| 0 <= w < sessions.len() && (#[trigger] sessions[w]).id == id;
            assert(next[w].id == id);
        }
        if has_id(next, id) {
            let w = choose|w: int| 0 <= w < next.len() && (#[trigger] next[w]).id == id;
            assert(sessions[w].id == id);
        }
    }
    assert forall|p: u64| is_active(next, p) <==> is_active(sessions, p) by {
        if is_active(sessions, p) {
            let w = choose|w: int|
                0 <= w < sessions.len() && (#[trigger] sessions[w]).is_participant(p);
            assert(next[w].is_participant(p));
        }
        if is_active(next, p) {
            let w = choose|w: int| 0 <= w < next.len() && (#[trigger] next[w]).is_participant(p);
            assert(sessions[w].is_participant(p));
        }
    }
    assert forall|a: int, b: int|
        0 <= a < next.len() && 0 <= b < next.len() && a != b implies disjoint(
        #[trigger] next[a],
        #[trigger] next[b],
    ) by {
        assert(disjoint(sessions[a], sessions[b]));
    }
}

/// The live sessions, in insertion order.
#[derive(Debug)]
pub struct SessionRegistry {
    sessions: Vec<Session>,
}

impl View for SessionRegistry {
    type V = Seq<SessionView>;

    closed spec fn view(&self) -> Seq<SessionView> {
        Seq::new(self.sessions@.len(), |i: int| self.sessions@[i]@)
    }
}

impl SessionRegistry {
    /// The invariant of the registry.
    pub open spec fn wf(&self) -> bool {
        registry_wf(self@)
    }

    /// An empty registry.
    pub fn new() -> (r: SessionRegistry)
        ensures
            r.wf(),
            r@ == Seq::<SessionView>::empty(),
    {
        let r = SessionRegistry { sessions: Vec::new() };
        assert(r@ =~= Seq::<SessionView>::empty());
        r
    }

    /// The number of live sessions.
    pub fn len(&self) -> (n: usize)
        ensures
            n == self@.len(),
    {
        self.sessions.len()
    }

    /// The session at position `i` of the collection.
    pub fn session_at(&self, i: usize) -> (s: &Session)
        requires
            i < self@.len(),
        ensures
            s@ == self@[i as int],
    {
        &self.sessions[i]
    }

    /// The position of the session that `player` takes part in.
    pub fn position_of_player(&self, player: u64) -> (r: Option<usize>)
        ensures
            match r {
                Some(i) => is_first_session_of(self@, player, i as int) && i == session_index_of(
                    self@,
                    player,
                ) && is_active(self@, player),
                None => !is_active(self@, player),
            },
    {
        let mut i: usize = 0;
        while i < self.sessions.len()
            invariant
                i <= self.sessions@.len(),
                forall|j: int| 0 <= j < i ==> !(#[trigger] self@[j]).is_participant(player),
            decreases self.sessions@.len() - i,
        {
            if self.sessions[i].is_participant(player) {
                proof {
                    assert(is_first_session_of(self@, player, i as int));
                    let f = session_index_of(self@, player);
                    assert(is_first_session_of(self@, player, f));
                    assert(f == i);
                }
                return Some(i);
            }
            i = i + 1;
        }
        None
    }

    /// The position of the session with identifier `id`.
    pub fn position_of_id(&self, id: u64) -> (r: Option<usize>)
        ensures
            match r {
                Some(i) => is_first_with_id(self@, id, i as int) && i == index_of_id(self@, id)
                    && has_id(self@, id),
                None => !has_id(self@, id),
            },
    {
        let mut i: usize = 0;
        while i < self.sessions.len()
            invariant
                i <= self.sessions@.len(),
                forall|j: int| 0 <= j < i ==> (#[trigger] self@[j]).id != id,
            decreases self.sessions@.len() - i,
        {
            if self.sessions[i].id() == id {
                proof {
                    assert(is_first_with_id(self@, id, i as int));
                    let f = index_of_id(self@, id);
                    assert(is_first_with_id(self@, id, f));
                    assert(f == i);
                }
                return Some(i);
            }
            i = i + 1;
        }
        None
    }

    /// Whether `player` takes part in a live session.
    pub fn is_player_active(&self, player: u64) -> (r: bool)
        ensures
            r == is_active(self@, player),
    {
        self.position_of_player(player).is_some()
    }

    /// The session that `player` takes part in.
    pub fn find_by_player(&self, player: u64) -> (r: Option<&Session>)
        ensures
            match r {
                Some(s) => s@ == self@[session_index_of(self@, player)] && s@.is_participant(
                    player,
                ) && self@.contains(s@),
                None => !is_active(self@, player),
            },
    {
        match self.position_of_player(player) {
            Some(i) => Some(&self.sessions[i]),
            None => None,
        }
    }

    /// The session with identifier `id`.
    pub fn get(&self, id: u64) -> (r: Option<&Session>)
        ensures
            match r {
                Some(s) => s@ == self@[index_of_id(self@, id)] && s@.id == id && self@.contains(
                    s@,
                ),
                None => !has_id(self@, id),
            },
    {
        match self.position_of_id(id) {
            Some(i) => Some(&self.sessions[i]),
            None => None,
        }
    }

    /// The smallest identifier that no live session carries.
    pub fn fresh_id(&self) -> (id: u64)
        ensures
            is_fresh_id(self@, id),
            id == fresh_id_of(self@),
    {
        let count = self.sessions.len();
        let mut id: u64 = 0;
        while self.position_of_id(id).is_some()
            invariant
                count == self@.len(),
                id <= count,
                forall|j: u64| j < id ==> has_id(self@, j),
            decreases count - id,
        {
            proof {
                assert(has_id(self@, id));
                lemma_ids_need_room(self@, id + 1);
            }
            id = id + 1;
        }
        proof {
            let other = fresh_id_of(self@);
            assert(is_fresh_id(self@, id));
            assert(is_fresh_id(self@, other));
            assert(other == id);
        }
        id
    }

    /// Appends `session` unless its identifier is in use or one of its
    /// players is active; says whether it was appended.
    pub fn insert(&mut self, session: Session) -> (r: bool)
        requires
            old(self).wf(),
            session.wf(),
        ensures
            final(self).wf(),
            r == can_insert(old(self)@, session@),
            r ==> final(self)@ == old(self)@.push(session@),
            !r ==> final(self)@ == old(self)@,
    {
        if self.position_of_id(session.id()).is_some() {
            return false;
        }
        if self.is_player_active(session.first().id) {
            return false;
        }
        if self.is_player_active(session.second().id) {
            return false;
        }
        proof {
            lemma_insert_effects(self@, session@);
        }
        self.sessions.push(session);
        assert(self@ =~= old(self)@.push(session@));
        true
    }

    /// Removes the session with identifier `id` and hands it out.
    pub fn remove(&mut self, id: u64) -> (r: Option<Session>)
        requires
            old(self).wf(),
        ensures
            final(self).wf(),
            match r {
                Some(s) => s@.id == id && s.wf() && exists|i: int|
                    0 <= i < old(self)@.len() && old(self)@[i] == s@ && final(self)@ == old(self)@.remove(i),
                None => !has_id(old(self)@, id) && final(self)@ == old(self)@,
            },
            forall|other: u64| has_id(final(self)@, other) <==> has_id(old(self)@, other) && other != id,
            forall|p: u64|
                is_active(final(self)@, p) <==> is_active(old(self)@, p) && !(r matches Some(s)
                    && s@.is_participant(p)),
    {
        match self.position_of_id(id) {
            Some(i) => {
                proof {
                    lemma_remove_effects(self@, i as int);
                }
                let s = self.sessions.remove(i);
                assert(self@ =~= old(self)@.remove(i as int));
                Some(s)
            },
            None => None,
        }
    }

    /// Applies `Session::try_move` to the session at position `i`.
    pub(crate) fn try_move_at(&mut self, i: usize, requester: u64, index: usize) -> (r: Result<
        Outcome,
        SessionError,
    >)
        requires
            old(self).wf(),
            i < old(self)@.len(),
        ensures
            final(self).wf(),
            match old(self)@[i as int].move_check(requester, index as int) {
                Ok(()) => final(self)@ == old(self)@.update(
                    i as int,
                    old(self)@[i as int].after_move(index as int),
                ) && r == Ok::<Outcome, SessionError>(final(self)@[i as int].outcome()),
                Err(e) => final(self)@ == old(self)@ && r == Err::<Outcome, SessionError>(e),
            },
            forall|id: u64| has_id(final(self)@, id) <==> has_id(old(self)@, id),
            forall|p: u64| is_active(final(self)@, p) <==> is_active(old(self)@, p),
    {
        let r = self.sessions[i].try_move(requester, index);
        proof {
            assert(self@ =~= old(self)@.update(i as int, self.sessions@[i as int]@));
            lemma_update_effects(old(self)@, i as int, self.sessions@[i as int]@);
        }
        r
    }

    /// Applies `Session::move_cursor` to the session at position `i`.
    pub(crate) fn move_cursor_at(&mut self, i: usize, requester: u64, direction: Direction) -> (r:
        Result<usize, SessionError>)
        requires
            old(self).wf(),
            i < old(self)@.len(),
        ensures
            final(self).wf(),
            match r {
                Ok(c) => requester == old(self)@[i as int].active_player() && final(self)@ == old(self)@.update(i as int, old(self)@[i as int].after_step(direction)) && c == final(self)@[i as int].cursor,
                Err(e) => requester != old(self)@[i as int].active_player() && e
                    == SessionError::NotYourTurn && final(self)@ == old(self)@,
            },
            forall|id: u64| has_id(final(self)@, id) <==> has_id(old(self)@, id),
            forall|p: u64| is_active(final(self)@, p) <==> is_active(old(self)@, p),
    {
        let r = self.sessions[i].move_cursor(requester, direction);
        proof {
            assert(self@ =~= old(self)@.update(i as int, self.sessions@[i as int]@));
            lemma_update_effects(old(self)@, i as int, self.sessions@[i as int]@);
        }
        r
    }
}

} // verus!
