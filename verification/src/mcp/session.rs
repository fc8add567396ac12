//! MCP sessions: which user each session ID belongs to.
use vstd::prelude::*;

use crate::ids::{is_uuid_text, uuid_v4_text};
use crate::text::{chars_eq, chars_of};

verus! {

/// The session entries as text pairs.
pub open spec fn entry_views(v: Seq<(String, String)>) -> Seq<(Seq<char>, Seq<char>)> {
    v.map_values(|e: (String, String)| (e.0@, e.1@))
}

/// The user of a session: the latest entry for it wins.
pub open spec fn lookup(s: Seq<(Seq<char>, Seq<char>)>, k: Seq<char>) -> Option<Seq<char>>
    decreases s.len(),
{
    if s.len() == 0 {
        None
    } else if s.last().0 == k {
        Some(s.last().1)
    } else {
        lookup(s.drop_last(), k)
    }
}

/// The entries without those of one session.
pub open spec fn without_key(s: Seq<(Seq<char>, Seq<char>)>, k: Seq<char>) -> Seq<(Seq<char>, Seq<char>)>
    decreases s.len(),
{
    if s.len() == 0 {
        seq![]
    } else {
        let r = without_key(s.drop_last(), k);
        if s.last().0 == k {
            r
        } else {
            r.push(s.last())
        }
    }
}

/// The session map the entries stand for.
pub open spec fn entries_map(s: Seq<(Seq<char>, Seq<char>)>) -> Map<Seq<char>, Seq<char>> {
    Map::new(|k: Seq<char>| lookup(s, k) is Some, |k: Seq<char>| lookup(s, k).unwrap())
}

proof fn lemma_without_key(s: Seq<(Seq<char>, Seq<char>)>, k: Seq<char>, j: Seq<char>)
    ensures
        lookup(without_key(s, k), j) == if j == k {
            None
        } else {
            lookup(s, j)
        },
    decreases s.len(),
{
    if s.len() > 0 {
        let r = without_key(s.drop_last(), k);
        lemma_without_key(s.drop_last(), k, j);
        if s.last().0 != k {
            assert(r.push(s.last()).drop_last() =~= r);
        }
    }
}

/// Manages MCP session IDs and their associated user IDs. The manager owns
/// its table; whoever shares it between requests holds it behind a lock (the
/// server keeps one in an `Arc<Mutex<..>>`), so there is no `Clone` that
/// would make a second, separate table.
#[derive(Debug)]
pub struct SessionManager {
    sessions: Vec<(String, String)>,
}

impl View for SessionManager {
    type V = Map<Seq<char>, Seq<char>>;

    /// The user of each live session.
    closed spec fn view(&self) -> Map<Seq<char>, Seq<char>> {
        entries_map(entry_views(self.sessions@))
    }
}

impl SessionManager {
    /// A manager with no sessions.
    pub fn new() -> (m: Self)
        ensures
            m@ == Map::<Seq<char>, Seq<char>>::empty(),
    {
        let m = SessionManager { sessions: Vec::new() };
        assert(m@ =~= Map::<Seq<char>, Seq<char>>::empty());
        m
    }

    /// Create a new session for a user. Returns the session ID (a fresh
    /// random UUID).
    pub fn create_session(&mut self, user_id: &str) -> (session_id: String)
        ensures
            is_uuid_text(session_id@),
            final(self)@ == old(self)@.insert(session_id@, user_id@),
    {
        let session_id = uuid_v4_text();
        let ghost before = entry_views(self.sessions@);
        self.sessions.push((session_id.clone(), String::from_str(user_id)));
        assert(entry_views(self.sessions@) =~= before.push((session_id@, user_id@)));
        assert(before.push((session_id@, user_id@)).drop_last() =~= before);
        assert(self@ =~= entries_map(before).insert(session_id@, user_id@));
        session_id
    }

    /// Look up the user ID for a session.
    pub fn get_user_id(&self, session_id: &str) -> (r: Option<String>)
        ensures
            match r {
                Some(u) => self@.contains_key(session_id@) && self@[session_id@] == u@,
                None => !self@.contains_key(session_id@),
            },
    {
        let ghost e = entry_views(self.sessions@);
        let key = chars_of(session_id);
        let mut i: usize = self.sessions.len();
        assert(e.take(i as int) =~= e);
        while i > 0
            invariant
                e == entry_views(self.sessions@),
                key@ == session_id@,
                i <= self.sessions@.len(),
                lookup(e, session_id@) == lookup(e.take(i as int), session_id@),
            decreases i,
        {
            assert(e.take(i as int).drop_last() =~= e.take(i - 1));
            let k = chars_of(self.sessions[i - 1].0.as_str());
            if chars_eq(k.as_slice(), key.as_slice()) {
                return Some(self.sessions[i - 1].1.clone());
            }
            i = i - 1;
        }
        None
    }

    /// Remove a session.
    pub fn remove_session(&mut self, session_id: &str)
        ensures
            final(self)@ == old(self)@.remove(session_id@),
    {
        let ghost e = entry_views(self.sessions@);
        let key = chars_of(session_id);
        let mut kept: Vec<(String, String)> = Vec::new();
        let mut i: usize = 0;
        while i < self.sessions.len()
            invariant
                e == entry_views(self.sessions@),
                key@ == session_id@,
                i <= self.sessions@.len(),
                entry_views(kept@) == without_key(e.take(i as int), session_id@),
            decreases self.sessions@.len() - i,
        {
            assert(e.take(i + 1).drop_last() =~= e.take(i as int));
            let k = chars_of(self.sessions[i].0.as_str());
            if !chars_eq(k.as_slice(), key.as_slice()) {
                let ghost before = entry_views(kept@);
                kept.push((self.sessions[i].0.clone(), self.sessions[i].1.clone()));
                assert(entry_views(kept@) =~= before.push(e[i as int]));
            }
            i = i + 1;
        }
        assert(e.take(i as int) =~= e);
        self.sessions = kept;
        assert forall|j: Seq<char>| #![auto] lookup(without_key(e, session_id@), j) == if j == session_id@ {
            None
        } else {
            lookup(e, j)
        } by {
            lemma_without_key(e, session_id@, j);
        }
        assert(self@ =~= old(self)@.remove(session_id@));
    }
}

/// A session just created belongs to its user until it is removed, and a
/// removed session belongs to nobody; other sessions are untouched by both.
pub proof fn lemma_session_laws(
    m: Map<Seq<char>, Seq<char>>,
    sid: Seq<char>,
    user: Seq<char>,
    other: Seq<char>,
)
    requires
        other != sid,
    ensures
        m.insert(sid, user).contains_key(sid) && m.insert(sid, user)[sid] == user,
        !m.remove(sid).contains_key(sid),
        m.insert(sid, user).contains_key(other) == m.contains_key(other),
        m.remove(sid).contains_key(other) == m.contains_key(other),
        m.contains_key(other) ==> m.insert(sid, user)[other] == m[other] && m.remove(sid)[other]
            == m[other],
{
}

} // verus!
