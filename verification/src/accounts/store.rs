//! The list of saved sessions: adding, removing and switching.
use crate::accounts::session::{bound_to, SessionsError};
use crate::accounts::types::{
    AuthDotJson, AuthView, SessionView, StoredAccountSession, StoredAccountSessions, StoredView,
};
use vstd::prelude::*;

verus! {

/// Whether two sessions are of one account: they share an email or a user id.
pub open spec fn same_account(session: SessionView, saved: SessionView) -> bool {
    ||| session.email is Some && saved.email == session.email
    ||| session.user_id is Some && saved.user_id == session.user_id
}

/// The place of the first saved session, at or after `from`, of the account of `session`; the
/// number of saved sessions where there is none.
pub open spec fn account_from(
    sessions: Seq<SessionView>,
    session: SessionView,
    from: int,
) -> int
    decreases sessions.len() - from,
{
    if from >= sessions.len() {
        sessions.len() as int
    } else if same_account(session, sessions[from]) {
        from
    } else {
        account_from(sessions, session, from + 1)
    }
}

/// The place of the first saved session, at or after `from`, with an id; the number of saved
/// sessions where there is none.
pub open spec fn id_from(sessions: Seq<SessionView>, session_id: Seq<char>, from: int) -> int
    decreases sessions.len() - from,
{
    if from >= sessions.len() {
        sessions.len() as int
    } else if sessions[from].session_id == session_id {
        from
    } else {
        id_from(sessions, session_id, from + 1)
    }
}

/// Whether the session at `at` is the one used last; of several used at that time, the one
/// that stands last.
pub open spec fn is_newest(sessions: Seq<SessionView>, at: int) -> bool {
    &&& 0 <= at < sessions.len()
    &&& forall|i: int|
        0 <= i < sessions.len() ==> #[trigger] sessions[i].last_used_at
            <= sessions[at].last_used_at
    &&& forall|i: int|
        at < i < sessions.len() ==> #[trigger] sessions[i].last_used_at < sessions[at].last_used_at
}

/// The place of the session used last.
pub open spec fn newest(sessions: Seq<SessionView>) -> int {
    choose|at: int| is_newest(sessions, at)
}

/// What becomes of the credential in use.
pub enum CredentialView {
    Keep,
    Write(AuthView),
    Clear,
}

/// What becomes of the credential in use.
#[derive(Debug, PartialEq, Eq)]
pub enum CredentialChange {
    /// It stays.
    Keep,
    /// It is replaced.
    Write(AuthDotJson),
    /// It is taken away.
    Clear,
}

impl View for CredentialChange {
    type V = CredentialView;

    open spec fn view(&self) -> CredentialView {
        match self {
            CredentialChange::Keep => CredentialView::Keep,
            CredentialChange::Write(auth_json) => CredentialView::Write(auth_json@),
            CredentialChange::Clear => CredentialView::Clear,
        }
    }
}

impl StoredView {
    /// The session as it is saved: where its account is saved already, under the id it has
    /// there.
    pub open spec fn identified(self, session: SessionView) -> SessionView {
        let at = account_from(self.sessions, session, 0);
        if at < self.sessions.len() {
            SessionView { session_id: self.sessions[at].session_id, ..session }
        } else {
            session
        }
    }

    /// The list with a session added: in the place of the session of that account, or at the
    /// end.
    pub open spec fn with_added(self, session: SessionView, switch: bool) -> StoredView {
        let at = account_from(self.sessions, session, 0);
        let added = self.identified(session);
        StoredView {
            active_session_id: if switch {
                Some(added.session_id)
            } else {
                self.active_session_id
            },
            sessions: if at < self.sessions.len() {
                self.sessions.update(at, added)
            } else {
                self.sessions.push(added)
            },
        }
    }

    /// Whether a session with an id is saved.
    pub open spec fn has(self, session_id: Seq<char>) -> bool {
        id_from(self.sessions, session_id, 0) < self.sessions.len()
    }

    /// The first session with an id.
    pub open spec fn session(self, session_id: Seq<char>) -> SessionView {
        self.sessions[id_from(self.sessions, session_id, 0)]
    }

    /// The list without the first session with an id.
    pub open spec fn without(self, session_id: Seq<char>) -> StoredView {
        StoredView {
            sessions: self.sessions.remove(id_from(self.sessions, session_id, 0)),
            ..self
        }
    }

    /// The list after the session with an id has gone: where that one was in use, the session
    /// used last takes its place.
    pub open spec fn with_successor(self, session_id: Seq<char>) -> StoredView {
        if self.active_session_id == Some(session_id) {
            StoredView {
                active_session_id: if self.sessions.len() > 0 {
                    Some(self.sessions[newest(self.sessions)].session_id)
                } else {
                    None
                },
                ..self
            }
        } else {
            self
        }
    }

    /// What becomes of the credential in use after the session with an id has gone.
    pub open spec fn successor_credential(self, session_id: Seq<char>) -> CredentialView {
        if self.active_session_id == Some(session_id) {
            if self.sessions.len() > 0 {
                CredentialView::Write(self.sessions[newest(self.sessions)].auth_json)
            } else {
                CredentialView::Clear
            }
        } else {
            CredentialView::Keep
        }
    }

    /// Why the session with an id cannot be put in use, if it cannot.
    pub open spec fn switch_refusal(self, session_id: Seq<char>) -> Option<SessionsError> {
        if !self.has(session_id) {
            Some(SessionsError::SessionNotFound)
        } else if self.session(session_id).auth_json.tokens is None {
            Some(SessionsError::NoTokens)
        } else {
            None
        }
    }

    /// The list with the first session with an id in use, in the workspace of an account.
    pub open spec fn switched(
        self,
        session_id: Seq<char>,
        account_id: Seq<char>,
        now: i64,
    ) -> StoredView {
        let at = id_from(self.sessions, session_id, 0);
        StoredView {
            active_session_id: Some(session_id),
            sessions: self.sessions.update(
                at,
                SessionView {
                    auth_json: bound_to(self.sessions[at].auth_json, Some(account_id)),
                    selected_workspace_account_id: Some(account_id),
                    last_used_at: now,
                    ..self.sessions[at]
                },
            ),
        }
    }
}

/// The session used last exists and is the only one of its kind.
proof fn lemma_newest(sessions: Seq<SessionView>, at: int)
    requires
        is_newest(sessions, at),
    ensures
        newest(sessions) == at,
{
    let found = newest(sessions);
    assert(is_newest(sessions, found));
    assert(sessions[found].last_used_at == sessions[at].last_used_at);
}

/// Whether an optional text is there and is the text of another one.
fn shares(text: &Option<String>, other: &Option<String>) -> (res: bool)
    ensures
        res == (text is Some && other.deep_view() == text.deep_view()),
{
    match (text, other) {
        (Some(a), Some(b)) => *a == *b,
        _ => false,
    }
}

impl StoredAccountSessions {
    /// The place of the first saved session of the account of `session`.
    fn account_position(&self, session: &StoredAccountSession) -> (res: usize)
        ensures
            res == account_from(self@.sessions, session@, 0),
            res <= self.sessions@.len(),
    {
        let mut i: usize = 0;
        while i < self.sessions.len()
            invariant
                i <= self.sessions@.len(),
                account_from(self@.sessions, session@, 0) == account_from(
                    self@.sessions,
                    session@,
                    i as int,
                ),
            decreases self.sessions@.len() - i,
        {
            let saved = &self.sessions[i];
            if shares(&session.email, &saved.email) || shares(&session.user_id, &saved.user_id) {
                return i;
            }
            i = i + 1;
        }
        i
    }

    /// The place of the first saved session with an id.
    fn id_position(&self, session_id: &String) -> (res: usize)
        ensures
            res == id_from(self@.sessions, session_id@, 0),
            res <= self.sessions@.len(),
    {
        let mut i: usize = 0;
        while i < self.sessions.len()
            invariant
                i <= self.sessions@.len(),
                id_from(self@.sessions, session_id@, 0) == id_from(
                    self@.sessions,
                    session_id@,
                    i as int,
                ),
            decreases self.sessions@.len() - i,
        {
            if self.sessions[i].session_id == *session_id {
                return i;
            }
            i = i + 1;
        }
        i
    }

    /// The place of the session used last.
    fn newest_position(&self) -> (res: usize)
        requires
            self.sessions@.len() > 0,
        ensures
            res < self.sessions@.len(),
            res == newest(self@.sessions),
    {
        let mut at: usize = 0;
        let mut i: usize = 1;
        while i < self.sessions.len()
            invariant
                at < i <= self.sessions@.len(),
                forall|k: int|
                    0 <= k < i ==> #[trigger] self.sessions@[k].last_used_at
                        <= self.sessions@[at as int].last_used_at,
                forall|k: int|
                    at < k < i ==> #[trigger] self.sessions@[k].last_used_at
                        < self.sessions@[at as int].last_used_at,
            decreases self.sessions@.len() - i,
        {
            if self.sessions[i].last_used_at >= self.sessions[at].last_used_at {
                at = i;
            }
            i = i + 1;
        }
        proof {
            let sessions = self@.sessions;
            assert forall|k: int| 0 <= k < sessions.len() implies #[trigger] sessions[k].last_used_at
                <= sessions[at as int].last_used_at by {
                assert(self.sessions@[k].last_used_at == sessions[k].last_used_at);
            }
            assert forall|k: int| at < k < sessions.len() implies #[trigger] sessions[k].last_used_at
                < sessions[at as int].last_used_at by {
                assert(self.sessions@[k].last_used_at == sessions[k].last_used_at);
            }
            lemma_newest(sessions, at as int);
        }
        at
    }

    /// Adds a session, in the place of the session of that account where one is saved, and puts
    /// it in use if asked to. Gives what becomes of the credential in use.
    pub fn add_session(&mut self, session: StoredAccountSession, switch_to_added_account: bool) -> (
    res: CredentialChange)
        ensures
            final(self)@ == old(self)@.with_added(session@, switch_to_added_account),
            res@ == if switch_to_added_account {
                CredentialView::Write(session@.auth_json)
            } else {
                CredentialView::Keep
            },
    {
        let mut session = session;
        let ghost given = session@;
        let at: usize = self.account_position(&session);
        if at < self.sessions.len() {
            session.session_id = self.sessions[at].session_id.clone();
        }
        let change: CredentialChange = if switch_to_added_account {
            self.active_session_id = Some(session.session_id.clone());
            CredentialChange::Write(session.auth_json.clone())
        } else {
            CredentialChange::Keep
        };
        if at < self.sessions.len() {
            self.sessions.set(at, session);
        } else {
            self.sessions.push(session);
        }
        assert(self@.sessions =~= old(self)@.with_added(given, switch_to_added_account).sessions);
        change
    }

    /// Takes the first session with an id out of the list.
    pub fn remove_session(&mut self, session_id: &String) -> (res: Result<
        StoredAccountSession,
        SessionsError,
    >)
        ensures
            if old(self)@.has(session_id@) {
                &&& res matches Ok(removed) && removed@ == old(self)@.session(session_id@)
                &&& final(self)@ == old(self)@.without(session_id@)
            } else {
                &&& res == Err::<StoredAccountSession, _>(SessionsError::SessionNotFound)
                &&& final(self)@ == old(self)@
            },
    {
        let at: usize = self.id_position(session_id);
        if at < self.sessions.len() {
            let removed = self.sessions.remove(at);
            assert(self@.sessions =~= old(self)@.without(session_id@).sessions);
            Ok(removed)
        } else {
            Err(SessionsError::SessionNotFound)
        }
    }

    /// Puts the session used last in use, if the one with the id was in use. Gives what becomes
    /// of the credential in use.
    pub fn succeed(&mut self, session_id: &String) -> (res: CredentialChange)
        ensures
            final(self)@ == old(self)@.with_successor(session_id@),
            res@ == old(self)@.successor_credential(session_id@),
    {
        let was_active: bool = match &self.active_session_id {
            Some(active) => *active == *session_id,
            None => false,
        };
        if was_active {
            if self.sessions.len() > 0 {
                let at: usize = self.newest_position();
                self.active_session_id = Some(self.sessions[at].session_id.clone());
                CredentialChange::Write(self.sessions[at].auth_json.clone())
            } else {
                self.active_session_id = None;
                CredentialChange::Clear
            }
        } else {
            CredentialChange::Keep
        }
    }

    /// Why the session with an id cannot be put in use, if it cannot.
    pub fn switch_refusal(&self, session_id: &String) -> (res: Option<SessionsError>)
        ensures
            res == self@.switch_refusal(session_id@),
    {
        let at: usize = self.id_position(session_id);
        if at >= self.sessions.len() {
            Some(SessionsError::SessionNotFound)
        } else if self.sessions[at].auth_json.tokens.is_none() {
            Some(SessionsError::NoTokens)
        } else {
            None
        }
    }

    /// Puts the first session with an id in use, in the workspace of an account. Gives the
    /// credential that is in use from then on.
    pub fn switch_session(&mut self, session_id: &String, account_id: &String, now: i64) -> (
    res: Result<AuthDotJson, SessionsError>)
        ensures
            if !old(self)@.has(session_id@) {
                &&& res == Err::<AuthDotJson, _>(SessionsError::SessionNotFound)
                &&& final(self)@ == old(self)@
            } else if old(self)@.session(session_id@).auth_json.tokens is None {
                &&& res == Err::<AuthDotJson, _>(SessionsError::NoTokens)
                &&& final(self)@ == old(self)@
            } else {
                &&& res matches Ok(auth_json) && auth_json@ == bound_to(
                    old(self)@.session(session_id@).auth_json,
                    Some(account_id@),
                )
                &&& final(self)@ == old(self)@.switched(session_id@, account_id@, now)
            },
    {
        let at: usize = self.id_position(session_id);
        if at >= self.sessions.len() {
            return Err(SessionsError::SessionNotFound);
        }
        let mut session: StoredAccountSession = self.sessions[at].clone();
        match &mut session.auth_json.tokens {
            Some(tokens) => {
                tokens.account_id = Some(account_id.clone());
            },
            None => {
                return Err(SessionsError::NoTokens);
            },
        }
        session.selected_workspace_account_id = Some(account_id.clone());
        session.last_used_at = now;
        let auth_json: AuthDotJson = session.auth_json.clone();
        self.sessions.set(at, session);
        self.active_session_id = Some(session_id.clone());
        assert(self@.sessions =~= old(self)@.switched(session_id@, account_id@, now).sessions);
        Ok(auth_json)
    }
}

} // verus!
