use vstd::prelude::*;

verus! {

/// A session ever issued: its id, its owner, and whether it is still live.
/// Ended sessions are kept so that an id is never handed out twice.
#[derive(Clone, Copy, Debug, PartialEq, Eq, Structural)]
pub struct SessionRecord {
    pub session_id: u128,
    pub user_id: u64,
    pub live: bool,
}

/// Whether some record in `sessions` carries id `sid`.
pub open spec fn issued(sessions: Seq<SessionRecord>, sid: u128) -> bool {
    exists|k: int| 0 <= k < sessions.len() && #[trigger] sessions[k].session_id == sid
}

/// The first record at or after `i` with id `sid`.
pub open spec fn find_session_from(sessions: Seq<SessionRecord>, sid: u128, i: int) -> Option<SessionRecord>
    decreases sessions.len() - i,
{
    if i < 0 || i >= sessions.len() {
        None
    } else if sessions[i].session_id == sid {
        Some(sessions[i])
    } else {
        find_session_from(sessions, sid, i + 1)
    }
}

/// The user that a live session `sid` belongs to; `None` for an unknown or ended one.
pub open spec fn session_owner(sessions: Seq<SessionRecord>, sid: u128) -> Option<u64> {
    match find_session_from(sessions, sid, 0) {
        Some(s) => if s.live {
            Some(s.user_id)
        } else {
            None
        },
        None => None,
    }
}

/// The records with session `sid` ended.
pub open spec fn ended(sessions: Seq<SessionRecord>, sid: u128) -> Seq<SessionRecord> {
    Seq::new(
        sessions.len(),
        |k: int|
            if sessions[k].session_id == sid {
                SessionRecord { live: false, ..sessions[k] }
            } else {
                sessions[k]
            },
    )
}

proof fn lemma_find_session(sessions: Seq<SessionRecord>, sid: u128, i: int)
    requires
        0 <= i,
    ensures
        find_session_from(sessions, sid, i) is None <==> !(exists|k: int|
            i <= k < sessions.len() && #[trigger] sessions[k].session_id == sid),
    decreases sessions.len() - i,
{
    if i < sessions.len() {
        lemma_find_session(sessions, sid, i + 1);
        if sessions[i].session_id != sid {
            assert forall|k: int| i <= k < sessions.len() && #[trigger] sessions[k].session_id == sid
                implies i + 1 <= k by {}
        }
    }
}

/// The Session Store: every session ever issued, with distinct ids.
pub struct SessionStore {
    sessions: Vec<SessionRecord>,
}

impl View for SessionStore {
    type V = Seq<SessionRecord>;

    closed spec fn view(&self) -> Seq<SessionRecord> {
        self.sessions@
    }
}

impl SessionStore {
    pub open spec fn wf(&self) -> bool {
        forall|i: int, j: int|
            0 <= i < self@.len() && 0 <= j < self@.len() && i != j
                ==> #[trigger] self@[i].session_id != #[trigger] self@[j].session_id
    }

    pub fn new() -> (r: SessionStore)
        ensures
            r.wf(),
            r@ == Seq::<SessionRecord>::empty(),
    {
        SessionStore { sessions: Vec::new() }
    }

    fn index_of(&self, sid: u128) -> (r: Option<usize>)
        ensures
            match r {
                Some(k) => k < self@.len() && self@[k as int].session_id == sid
                    && find_session_from(self@, sid, 0) == Some(self@[k as int]),
                None => find_session_from(self@, sid, 0) is None,
            },
    {
        let mut i: usize = 0;
        while i < self.sessions.len()
            invariant
                i <= self.sessions@.len(),
                self@ == self.sessions@,
                find_session_from(self@, sid, 0) == find_session_from(self@, sid, i as int),
            decreases self.sessions.len() - i,
        {
            if self.sessions[i].session_id == sid {
                return Some(i);
            }
            i = i + 1;
        }
        None
    }

    /// Whether id `sid` was ever issued.
    pub fn is_issued(&self, sid: u128) -> (r: bool)
        ensures
            r == issued(self@, sid),
    {
        proof {
            lemma_find_session(self@, sid, 0);
        }
        self.index_of(sid).is_some()
    }

    /// The user that session `sid` is live for, if any.
    pub fn resolve(&self, sid: u128) -> (r: Option<u64>)
        ensures
            r == session_owner(self@, sid),
    {
        match self.index_of(sid) {
            Some(k) => if self.sessions[k].live {
                Some(self.sessions[k].user_id)
            } else {
                None
            },
            None => None,
        }
    }

    /// Mints a session for `user_id` under the freshly drawn id `candidate`.
    /// An id that was ever issued before is never reused: then `None` comes
    /// back, nothing changes, and the caller draws again.
    pub fn establish_session(&mut self, candidate: u128, user_id: u64) -> (r: Option<u128>)
        requires
            old(self).wf(),
        ensures
            final(self).wf(),
            r == (if issued(old(self)@, candidate) {
                None::<u128>
            } else {
                Some(candidate)
            }),
            r is Some ==> final(self)@ == old(self)@.push(
                SessionRecord { session_id: candidate, user_id, live: true },
            ),
            r is None ==> final(self)@ == old(self)@,
    {
        proof {
            lemma_find_session(self@, candidate, 0);
        }
        if self.index_of(candidate).is_some() {
            return None;
        }
        self.sessions.push(SessionRecord { session_id: candidate, user_id, live: true });
        Some(candidate)
    }

    /// Ends session `sid`; ending an unknown or already ended session is no error.
    pub fn destroy_session(&mut self, sid: u128)
        requires
            old(self).wf(),
        ensures
            final(self).wf(),
            final(self)@ == ended(old(self)@, sid),
            session_owner(final(self)@, sid) is None,
    {
        let ghost before = self@;
        match self.index_of(sid) {
            None => {
                proof {
                    lemma_find_session(before, sid, 0);
                }
                assert(self@ =~= ended(before, sid));
            },
            Some(k) => {
                let rec = SessionRecord { session_id: sid, user_id: self.sessions[k].user_id, live: false };
                self.sessions.set(k, rec);
                assert forall|j: int| 0 <= j < before.len() && j != k implies before[j].session_id != sid by {
                    assert(before[j].session_id != before[k as int].session_id);
                }
                assert(self@ =~= ended(before, sid));
                proof {
                    lemma_find_session(before, sid, 0);
                    lemma_first_is(self@, sid, k as int);
                }
            },
        }
    }
}

proof fn lemma_first_is(sessions: Seq<SessionRecord>, sid: u128, k: int)
    requires
        0 <= k < sessions.len(),
        sessions[k].session_id == sid,
        forall|j: int| 0 <= j < sessions.len() && j != k ==> #[trigger] sessions[j].session_id != sid,
    ensures
        find_session_from(sessions, sid, 0) == Some(sessions[k]),
{
    lemma_first_from(sessions, sid, k, 0);
}

proof fn lemma_first_from(sessions: Seq<SessionRecord>, sid: u128, k: int, i: int)
    requires
        0 <= i <= k < sessions.len(),
        sessions[k].session_id == sid,
        forall|j: int| 0 <= j < sessions.len() && j != k ==> #[trigger] sessions[j].session_id != sid,
    ensures
        find_session_from(sessions, sid, i) == Some(sessions[k]),
    decreases k - i,
{
    if i < k {
        lemma_first_from(sessions, sid, k, i + 1);
    }
}

/// The one-shot message carried to the next page render.
pub struct FlashSlot {
    message: Option<String>,
}

impl View for FlashSlot {
    type V = Option<Seq<char>>;

    closed spec fn view(&self) -> Option<Seq<char>> {
        match self.message {
            Some(m) => Some(m@),
            None => None,
        }
    }
}

impl FlashSlot {
    pub fn new() -> (r: FlashSlot)
        ensures
            r@ is None,
    {
        FlashSlot { message: None }
    }

    /// Attaches `message` to the outgoing redirect, replacing any earlier one.
    pub fn set_flash(&mut self, message: String)
        ensures
            final(self)@ == Some(message@),
    {
        self.message = Some(message);
    }

    /// Reads the pending message and clears it.
    pub fn take_flash(&mut self) -> (r: Option<String>)
        ensures
            final(self)@ is None,
            match r {
                Some(m) => old(self)@ == Some(m@),
                None => old(self)@ is None,
            },
    {
        self.message.take()
    }
}

} // verus!
