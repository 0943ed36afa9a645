//! The table of open sessions: session id to user and start time, with a
//! lifetime of thirty minutes that is checked on access.

use crate::ident::{is_session_id, random_session_id, SESSION_ID_LEN};
use crate::user::{User, UserView};
use vstd::prelude::*;

verus! {

/// How long a session lasts, in milliseconds.
pub const SESSION_LIFETIME_MS: i64 = 1_800_000;

/// How long the session cookie lasts, in seconds.
pub const SESSION_COOKIE_MAX_AGE_SECS: u64 = 1800;

/// One open session.
pub struct Session {
    id: String,
    user: User,
    started: i64,
}

/// What a session id is bound to: the user as of the start of the session,
/// and the start time in milliseconds since the Unix epoch.
pub ghost struct Binding {
    pub user: UserView,
    pub started: int,
}

/// Whether a session that started at `started` has run out at `now`.
pub open spec fn expired(started: int, now: int) -> bool {
    now - started >= SESSION_LIFETIME_MS as int
}

/// The three answers a lookup can give.
pub enum Outcome {
    Active,
    Expired,
    NotFound,
}

/// The answer that a lookup of `sid` at the time `now` gives on `table`.
pub open spec fn lookup(table: Map<Seq<char>, Binding>, sid: Seq<char>, now: int) -> Outcome {
    if !table.contains_key(sid) {
        Outcome::NotFound
    } else if expired(table[sid].started, now) {
        Outcome::Expired
    } else {
        Outcome::Active
    }
}

/// The table after a lookup of `sid` at the time `now`: a session that has
/// run out is gone, everything else stays.
pub open spec fn after_lookup(table: Map<Seq<char>, Binding>, sid: Seq<char>, now: int) -> Map<
    Seq<char>,
    Binding,
> {
    if lookup(table, sid, now) is Expired {
        table.remove(sid)
    } else {
        table
    }
}

/// The answer of [`ServerState::get`].
pub enum SessionLookup {
    /// The session is open: its user and its start time.
    Active { user: User, started: i64 },
    /// The session had run out; it was removed.
    Expired,
    /// No session has this id.
    NotFound,
}

/// The open sessions of the process: a table from session id to user and
/// start time. The sessions are kept in a vector in which no id stands
/// twice, so that the table is a map in every contract.
pub struct ServerState {
    open_sessions: Vec<Session>,
}

spec fn has_id(s: Seq<Session>, i: int, k: Seq<char>) -> bool {
    0 <= i < s.len() && s[i].id@ == k
}

spec fn distinct(s: Seq<Session>) -> bool {
    forall|i: int, j: int|
        0 <= i < s.len() && 0 <= j < s.len() && i != j ==> (#[trigger] s[i]).id@ != (
        #[trigger] s[j]).id@
}

spec fn binding_of(e: Session) -> Binding {
    Binding { user: e.user@, started: e.started as int }
}

spec fn table(s: Seq<Session>) -> Map<Seq<char>, Binding> {
    Map::new(
        |k: Seq<char>| exists|i: int| has_id(s, i, k),
        |k: Seq<char>| binding_of(s[choose|i: int| has_id(s, i, k)]),
    )
}

proof fn lemma_entry(s: Seq<Session>, i: int)
    requires
        distinct(s),
        0 <= i < s.len(),
    ensures
        table(s).contains_key(s[i].id@),
        table(s)[s[i].id@] == binding_of(s[i]),
{
    let k = s[i].id@;
    assert(has_id(s, i, k));
    let c = choose|c: int| has_id(s, c, k);
    assert(has_id(s, c, k));
    assert(c == i);
}

proof fn lemma_absent(s: Seq<Session>, k: Seq<char>)
    requires
        forall|i: int| 0 <= i < s.len() ==> (#[trigger] s[i]).id@ != k,
    ensures
        !table(s).contains_key(k),
{
    assert forall|i: int| !has_id(s, i, k) by {
        if 0 <= i < s.len() {
            assert(s[i].id@ != k);
        }
    }
}

proof fn lemma_push(s: Seq<Session>, e: Session)
    requires
        distinct(s),
        !table(s).contains_key(e.id@),
    ensures
        distinct(s.push(e)),
        table(s.push(e)) == table(s).insert(e.id@, binding_of(e)),
{
    let t = s.push(e);
    assert forall|i: int| 0 <= i < s.len() implies (#[trigger] s[i]).id@ != e.id@ by {
        assert(has_id(s, i, s[i].id@));
    }
    assert(distinct(t)) by {
        assert forall|i: int, j: int| 0 <= i < t.len() && 0 <= j < t.len() && i != j implies (
        #[trigger] t[i]).id@ != (#[trigger] t[j]).id@ by {
            if i < s.len() {
                assert(t[i] == s[i]);
            }
            if j < s.len() {
                assert(t[j] == s[j]);
            }
        }
    }
    let want = table(s).insert(e.id@, binding_of(e));
    assert forall|k: Seq<char>| table(t).contains_key(k) <==> want.contains_key(k) by {
        if table(t).contains_key(k) {
            let i = choose|i: int| has_id(t, i, k);
            if i < s.len() {
                assert(has_id(s, i, k));
            }
        }
        if want.contains_key(k) {
            if k == e.id@ {
                assert(has_id(t, s.len() as int, k));
            } else {
                let i = choose|i: int| has_id(s, i, k);
                assert(has_id(t, i, k));
            }
        }
    }
    assert forall|k: Seq<char>| table(t).contains_key(k) implies table(t)[k] == want[k] by {
        let i = choose|i: int| has_id(t, i, k);
        lemma_entry(t, i);
        if i < s.len() {
            lemma_entry(s, i);
        }
    }
    assert(table(t) =~= want);
}

proof fn lemma_update(s: Seq<Session>, i: int, e: Session)
    requires
        distinct(s),
        0 <= i < s.len(),
        s[i].id@ == e.id@,
    ensures
        distinct(s.update(i, e)),
        table(s.update(i, e)) == table(s).insert(e.id@, binding_of(e)),
{
    let t = s.update(i, e);
    assert(distinct(t)) by {
        assert forall|a: int, b: int| 0 <= a < t.len() && 0 <= b < t.len() && a != b implies (
        #[trigger] t[a]).id@ != (#[trigger] t[b]).id@ by {
            assert(t[a].id@ == s[a].id@);
            assert(t[b].id@ == s[b].id@);
        }
    }
    let want = table(s).insert(e.id@, binding_of(e));
    assert forall|k: Seq<char>| table(t).contains_key(k) <==> want.contains_key(k) by {
        if table(t).contains_key(k) {
            let j = choose|j: int| has_id(t, j, k);
            assert(has_id(s, j, k));
        }
        if want.contains_key(k) {
            if k == e.id@ {
                assert(has_id(t, i, k));
            } else {
                let j = choose|j: int| has_id(s, j, k);
                assert(has_id(t, j, k));
            }
        }
    }
    assert forall|k: Seq<char>| table(t).contains_key(k) implies table(t)[k] == want[k] by {
        let j = choose|j: int| has_id(t, j, k);
        lemma_entry(t, j);
        if j != i {
            lemma_entry(s, j);
        }
    }
    assert(table(t) =~= want);
}

proof fn lemma_remove(s: Seq<Session>, i: int)
    requires
        distinct(s),
        0 <= i < s.len(),
    ensures
        distinct(s.remove(i)),
        table(s.remove(i)) == table(s).remove(s[i].id@),
{
    let t = s.remove(i);
    let gone = s[i].id@;
    assert(distinct(t)) by {
        assert forall|a: int, b: int| 0 <= a < t.len() && 0 <= b < t.len() && a != b implies (
        #[trigger] t[a]).id@ != (#[trigger] t[b]).id@ by {
            let sa = if a < i { a } else { a + 1 };
            let sb = if b < i { b } else { b + 1 };
            assert(t[a] == s[sa]);
            assert(t[b] == s[sb]);
        }
    }
    let want = table(s).remove(gone);
    assert forall|k: Seq<char>| table(t).contains_key(k) <==> want.contains_key(k) by {
        if table(t).contains_key(k) {
            let j = choose|j: int| has_id(t, j, k);
            let sj = if j < i { j } else { j + 1 };
            assert(t[j] == s[sj]);
            assert(has_id(s, sj, k));
            assert(s[sj].id@ != s[i].id@);
        }
        if want.contains_key(k) {
            let j = choose|j: int| has_id(s, j, k);
            assert(j != i);
            let tj = if j < i { j } else { j - 1 };
            assert(t[tj] == s[j]);
            assert(has_id(t, tj, k));
        }
    }
    assert forall|k: Seq<char>| table(t).contains_key(k) implies table(t)[k] == want[k] by {
        let j = choose|j: int| has_id(t, j, k);
        let sj = if j < i { j } else { j + 1 };
        assert(t[j] == s[sj]);
        lemma_entry(t, j);
        lemma_entry(s, sj);
    }
    assert(table(t) =~= want);
}

impl SessionLookup {
    /// Which of the three answers this is.
    pub open spec fn outcome(&self) -> Outcome {
        match self {
            SessionLookup::Active { .. } => Outcome::Active,
            SessionLookup::Expired => Outcome::Expired,
            SessionLookup::NotFound => Outcome::NotFound,
        }
    }
}

impl View for ServerState {
    type V = Map<Seq<char>, Binding>;

    closed spec fn view(&self) -> Map<Seq<char>, Binding> {
        table(self.open_sessions@)
    }
}

impl ServerState {
    /// No session id is bound twice.
    pub closed spec fn wf(&self) -> bool {
        distinct(self.open_sessions@)
    }

    /// A table without sessions.
    pub fn new() -> (state: ServerState)
        ensures
            state.wf(),
            state@ == Map::<Seq<char>, Binding>::empty(),
    {
        let state = ServerState { open_sessions: Vec::new() };
        assert(state@ =~= Map::<Seq<char>, Binding>::empty()) by {
            assert forall|k: Seq<char>| !state@.contains_key(k) by {
                lemma_absent(state.open_sessions@, k);
            }
        }
        state
    }

    fn position(&self, sid: &str) -> (r: Option<usize>)
        requires
            self.wf(),
        ensures
            match r {
                Some(i) => i < self.open_sessions@.len() && self.open_sessions@[i as int].id@
                    == sid@ && self@.contains_key(sid@) && self@[sid@] == binding_of(
                    self.open_sessions@[i as int],
                ),
                None => !self@.contains_key(sid@),
            },
    {
        let wanted: String = sid.to_owned();
        let mut i: usize = 0;
        while i < self.open_sessions.len()
            invariant
                i <= self.open_sessions@.len(),
                wanted@ == sid@,
                self.wf(),
                forall|j: int| 0 <= j < i ==> (#[trigger] self.open_sessions@[j]).id@ != sid@,
            decreases self.open_sessions@.len() - i,
        {
            if self.open_sessions[i].id == wanted {
                proof {
                    lemma_entry(self.open_sessions@, i as int);
                }
                return Some(i);
            }
            i += 1;
        }
        proof {
            lemma_absent(self.open_sessions@, sid@);
        }
        None
    }

    /// Binds `sid` to `user` with the start time `now`. An earlier binding of
    /// `sid` is replaced.
    pub fn open(&mut self, sid: String, user: User, now: i64)
        requires
            old(self).wf(),
        ensures
            final(self).wf(),
            final(self)@ == old(self)@.insert(sid@, Binding { user: user@, started: now as int }),
    {
        let found = self.position(sid.as_str());
        let entry = Session { id: sid, user, started: now };
        match found {
            Some(i) => {
                proof {
                    lemma_update(self.open_sessions@, i as int, entry);
                }
                self.open_sessions.set(i, entry);
            },
            None => {
                proof {
                    lemma_push(self.open_sessions@, entry);
                }
                self.open_sessions.push(entry);
            },
        }
    }

    /// Opens a session for `user` at the time `now` under a fresh random id
    /// of 64 characters and answers the id, or `None`, with the table
    /// unchanged, where no randomness is to be had.
    pub fn create(&mut self, user: User, now: i64) -> (r: Option<String>)
        requires
            old(self).wf(),
        ensures
            final(self).wf(),
            match r {
                Some(sid) => is_session_id(sid@) && sid@.len() == SESSION_ID_LEN && final(self)@
                    == old(self)@.insert(
                    sid@,
                    Binding { user: user@, started: now as int },
                ),
                None => final(self)@ == old(self)@,
            },
    {
        match random_session_id() {
            Some(sid) => {
                let answer = sid.clone();
                self.open(sid, user, now);
                Some(answer)
            },
            None => None,
        }
    }

    /// Looks `sid` up at the time `now`. A session that has run out is
    /// removed and reported as expired; an open one is returned and stays.
    pub fn get(&mut self, sid: &str, now: i64) -> (r: SessionLookup)
        requires
            old(self).wf(),
        ensures
            final(self).wf(),
            r.outcome() == lookup(old(self)@, sid@, now as int),
            final(self)@ == after_lookup(old(self)@, sid@, now as int),
            match r {
                SessionLookup::NotFound => !old(self)@.contains_key(sid@) && final(self)@ == old(
                    self,
                )@,
                SessionLookup::Expired => old(self)@.contains_key(sid@) && expired(
                    old(self)@[sid@].started,
                    now as int,
                ) && final(self)@ == old(self)@.remove(sid@),
                SessionLookup::Active { user, started } => old(self)@.contains_key(sid@)
                    && !expired(old(self)@[sid@].started, now as int) && final(self)@ == old(self)@
                    && old(self)@[sid@] == (Binding { user: user@, started: started as int }),
            },
    {
        match self.position(sid) {
            None => SessionLookup::NotFound,
            Some(i) => {
                let started = self.open_sessions[i].started;
                if (now as i128) - (started as i128) >= (SESSION_LIFETIME_MS as i128) {
                    proof {
                        lemma_remove(self.open_sessions@, i as int);
                    }
                    let _ = self.open_sessions.remove(i);
                    SessionLookup::Expired
                } else {
                    SessionLookup::Active { user: self.open_sessions[i].user.duplicate(), started }
                }
            },
        }
    }

    /// Removes the session `sid`, if there is one.
    pub fn invalidate(&mut self, sid: &str)
        requires
            old(self).wf(),
        ensures
            final(self).wf(),
            final(self)@ == old(self)@.remove(sid@),
    {
        match self.position(sid) {
            None => {
                assert(self@.remove(sid@) =~= self@);
            },
            Some(i) => {
                proof {
                    lemma_remove(self.open_sessions@, i as int);
                }
                let _ = self.open_sessions.remove(i);
            },
        }
    }

    /// The number of sessions in the table, run out or not.
    pub fn len(&self) -> (n: usize)
        requires
            self.wf(),
        ensures
            n == self@.len(),
            self@.dom().finite(),
    {
        proof {
            lemma_len(self.open_sessions@);
        }
        self.open_sessions.len()
    }
}

/// A lookup at or after thirty minutes from the start reports the session
/// as expired, and every later lookup of the same id finds nothing.
pub proof fn lemma_expired_then_not_found(
    table: Map<Seq<char>, Binding>,
    sid: Seq<char>,
    now: int,
    later: int,
)
    requires
        table.contains_key(sid),
        now - table[sid].started >= SESSION_LIFETIME_MS as int,
    ensures
        lookup(table, sid, now) is Expired,
        lookup(after_lookup(table, sid, now), sid, later) is NotFound,
{
}

/// A lookup at the very time a session was opened finds it, bound to the
/// user it was opened for, and leaves the table as it is.
pub proof fn lemma_fresh_session_is_active(
    table: Map<Seq<char>, Binding>,
    sid: Seq<char>,
    user: UserView,
    now: int,
)
    ensures
        ({
            let opened = table.insert(sid, Binding { user, started: now });
            &&& lookup(opened, sid, now) is Active
            &&& opened[sid].user == user
            &&& after_lookup(opened, sid, now) == opened
        }),
{
}

/// A lookup before thirty minutes have passed never removes anything, and a
/// lookup never touches another session.
pub proof fn lemma_lookup_is_local(
    table: Map<Seq<char>, Binding>,
    sid: Seq<char>,
    other: Seq<char>,
    now: int,
)
    requires
        other != sid,
    ensures
        after_lookup(table, sid, now).contains_key(other) == table.contains_key(other),
        table.contains_key(other) ==> after_lookup(table, sid, now)[other] == table[other],
        table.contains_key(sid) && now - table[sid].started < SESSION_LIFETIME_MS as int
            ==> after_lookup(table, sid, now) == table,
{
}

proof fn lemma_len(s: Seq<Session>)
    requires
        distinct(s),
    ensures
        table(s).dom().finite(),
        table(s).len() == s.len(),
    decreases s.len(),
{
    if s.len() == 0 {
        lemma_absent_all(s);
        assert(table(s).dom() =~= Set::<Seq<char>>::empty());
    } else {
        let i = s.len() - 1;
        lemma_remove(s, i);
        let t = s.remove(i);
        lemma_len(t);
        lemma_entry(s, i);
        assert(table(s).dom() =~= table(t).dom().insert(s[i].id@));
    }
}

proof fn lemma_absent_all(s: Seq<Session>)
    requires
        s.len() == 0,
    ensures
        forall|k: Seq<char>| !table(s).contains_key(k),
{
    assert forall|k: Seq<char>| !table(s).contains_key(k) by {
        lemma_absent(s, k);
    }
}

} // verus!
