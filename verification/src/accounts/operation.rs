//! The operations on the saved sessions, step by step.
//!
//! An operation says what to do next outside (read or write a file, ask the backend); what came
//! of it is handed back, until the operation says that it has finished. Loading the saved
//! sessions is the first part of every operation: where none were ever saved, the credential in
//! use is saved as the first one.
use crate::accounts::response::{response, response_of};
use crate::accounts::session::{
    access_token_claims, access_token_payload, bound_to, claims_or_none, payload_of, refreshed,
    session_from_auth_json, session_of, SessionsError,
};
use crate::accounts::store::{CredentialChange, CredentialView};
use crate::accounts::types::{
    no_claims, AccessTokenClaims, AccountSessionsResponse, AccountsCheck, AccountsView,
    AuthDotJson, AuthView, ClaimsView, ResponseView, SessionView, StoredAccountSession,
    StoredAccountSessions, StoredView,
};
use crate::clock::unix_now;
use crate::ids::{is_v7_text, some_v7_text};
use vstd::prelude::*;

verus! {

/// The name of the file that holds the saved sessions.
pub const ACCOUNT_SESSIONS_FILE: &'static str = "account-sessions.json";

/// What is asked for.
#[derive(Debug, PartialEq, Eq)]
pub enum Request {
    /// Save the credential in use as a session.
    Add { switch_to_added_account: bool },
    /// Show the saved sessions.
    List { refresh_workspace_metadata: bool },
    /// Give up the session with an id.
    Logout { session_id: String },
    /// Use the session with an id, in the workspace of an account.
    Switch { session_id: String, account_id: String },
}

pub enum RequestView {
    Add { switch: bool },
    List { refresh: bool },
    Logout { session_id: Seq<char> },
    Switch { session_id: Seq<char>, account_id: Seq<char> },
}

impl View for Request {
    type V = RequestView;

    open spec fn view(&self) -> RequestView {
        match self {
            Request::Add { switch_to_added_account } => RequestView::Add {
                switch: *switch_to_added_account,
            },
            Request::List { refresh_workspace_metadata } => RequestView::List {
                refresh: *refresh_workspace_metadata,
            },
            Request::Logout { session_id } => RequestView::Logout { session_id: session_id@ },
            Request::Switch { session_id, account_id } => RequestView::Switch {
                session_id: session_id@,
                account_id: account_id@,
            },
        }
    }
}

/// How reading or writing failed.
#[derive(Clone, Copy, Debug, PartialEq, Eq, Structural)]
pub enum IoErrorKind {
    NotFound,
    Other,
}

/// What a session is made for.
#[derive(Debug, PartialEq, Eq)]
pub enum Target {
    /// To be the first saved session.
    Import,
    /// To be added to saved sessions.
    Add(StoredAccountSessions),
}

pub enum TargetView {
    Import,
    Add(StoredView),
}

impl View for Target {
    type V = TargetView;

    open spec fn view(&self) -> TargetView {
        match self {
            Target::Import => TargetView::Import,
            Target::Add(stored) => TargetView::Add(stored@),
        }
    }
}

/// What an operation waits for.
#[derive(Debug, PartialEq, Eq)]
pub enum Phase {
    ReadingFile,
    ReadingAuth(Target),
    ParsingClaims(Target, AuthDotJson),
    SavingImport(StoredAccountSessions),
    FetchingAdded(StoredAccountSessions, StoredAccountSession),
    FetchingListed(StoredAccountSessions, usize),
    Revoking(StoredAccountSessions),
    SavingAuth(StoredAccountSessions),
    SavingFile(StoredAccountSessions),
    Finished,
}

pub enum PhaseView {
    ReadingFile,
    ReadingAuth(TargetView),
    ParsingClaims(TargetView, AuthView),
    SavingImport(StoredView),
    FetchingAdded(StoredView, SessionView),
    FetchingListed(StoredView, int),
    Revoking(StoredView),
    SavingAuth(StoredView),
    SavingFile(StoredView),
    Finished,
}

impl View for Phase {
    type V = PhaseView;

    open spec fn view(&self) -> PhaseView {
        match self {
            Phase::ReadingFile => PhaseView::ReadingFile,
            Phase::ReadingAuth(target) => PhaseView::ReadingAuth(target@),
            Phase::ParsingClaims(target, auth) => PhaseView::ParsingClaims(target@, auth@),
            Phase::SavingImport(stored) => PhaseView::SavingImport(stored@),
            Phase::FetchingAdded(stored, session) => PhaseView::FetchingAdded(stored@, session@),
            Phase::FetchingListed(stored, at) => PhaseView::FetchingListed(stored@, *at as int),
            Phase::Revoking(stored) => PhaseView::Revoking(stored@),
            Phase::SavingAuth(stored) => PhaseView::SavingAuth(stored@),
            Phase::SavingFile(stored) => PhaseView::SavingFile(stored@),
            Phase::Finished => PhaseView::Finished,
        }
    }
}

/// What is to be done next.
#[derive(Debug, PartialEq, Eq)]
pub enum Action {
    /// Read the file with the saved sessions.
    ReadFile,
    /// Read the credential in use.
    ReadAuth,
    /// Read the claims out of the JSON text of a token's payload.
    ParseClaims(Vec<u8>),
    /// Ask the backend which accounts a credential has.
    FetchAccounts(AuthDotJson),
    /// Have the tokens of a credential revoked.
    RevokeTokens(AuthDotJson),
    /// Put a credential in use.
    WriteAuth(AuthDotJson),
    /// Take the credential in use away.
    ClearAuth,
    /// Write the file with the saved sessions.
    WriteFile(StoredAccountSessions),
    /// Answer.
    Finish(Result<AccountSessionsResponse, SessionsError>),
}

pub enum ActionView {
    ReadFile,
    ReadAuth,
    ParseClaims(Seq<u8>),
    FetchAccounts(AuthView),
    RevokeTokens(AuthView),
    WriteAuth(AuthView),
    ClearAuth,
    WriteFile(StoredView),
    Finish(Result<ResponseView, SessionsError>),
}

impl View for Action {
    type V = ActionView;

    open spec fn view(&self) -> ActionView {
        match self {
            Action::ReadFile => ActionView::ReadFile,
            Action::ReadAuth => ActionView::ReadAuth,
            Action::ParseClaims(payload) => ActionView::ParseClaims(payload@),
            Action::FetchAccounts(auth) => ActionView::FetchAccounts(auth@),
            Action::RevokeTokens(auth) => ActionView::RevokeTokens(auth@),
            Action::WriteAuth(auth) => ActionView::WriteAuth(auth@),
            Action::ClearAuth => ActionView::ClearAuth,
            Action::WriteFile(stored) => ActionView::WriteFile(stored@),
            Action::Finish(Ok(answer)) => ActionView::Finish(Ok(answer@)),
            Action::Finish(Err(error)) => ActionView::Finish(Err(*error)),
        }
    }
}

/// What came of an action.
#[derive(Debug, PartialEq, Eq)]
pub enum Event {
    FileRead(Result<StoredAccountSessions, IoErrorKind>),
    AuthRead(Result<Option<AuthDotJson>, IoErrorKind>),
    ClaimsParsed(Option<AccessTokenClaims>),
    AccountsFetched(Option<AccountsCheck>),
    /// Revoking, writing or clearing ended.
    Done(Result<(), IoErrorKind>),
}

pub enum EventView {
    FileRead(Result<StoredView, IoErrorKind>),
    AuthRead(Result<Option<AuthView>, IoErrorKind>),
    ClaimsParsed(Option<ClaimsView>),
    AccountsFetched(Option<AccountsView>),
    Done(Result<(), IoErrorKind>),
}

impl View for Event {
    type V = EventView;

    open spec fn view(&self) -> EventView {
        match self {
            Event::FileRead(Ok(stored)) => EventView::FileRead(Ok(stored@)),
            Event::FileRead(Err(kind)) => EventView::FileRead(Err(*kind)),
            Event::AuthRead(Ok(auth)) => EventView::AuthRead(Ok(auth.deep_view())),
            Event::AuthRead(Err(kind)) => EventView::AuthRead(Err(*kind)),
            Event::ClaimsParsed(claims) => EventView::ClaimsParsed(claims.deep_view()),
            Event::AccountsFetched(accounts) => EventView::AccountsFetched(accounts.deep_view()),
            Event::Done(done) => EventView::Done(*done),
        }
    }
}

/// An operation that is under way.
#[derive(Debug, PartialEq, Eq)]
pub struct Operation {
    pub request: Request,
    pub phase: Phase,
}

pub struct OperationView {
    pub request: RequestView,
    pub phase: PhaseView,
}

impl View for Operation {
    type V = OperationView;

    open spec fn view(&self) -> OperationView {
        OperationView { request: self.request@, phase: self.phase@ }
    }
}

/// The end of an operation that failed.
pub open spec fn failed(error: SessionsError) -> (PhaseView, ActionView) {
    (PhaseView::Finished, ActionView::Finish(Err(error)))
}

/// The end of an operation that leaves `stored`.
pub open spec fn answered(stored: StoredView) -> (PhaseView, ActionView) {
    (PhaseView::Finished, ActionView::Finish(Ok(response_of(stored))))
}

/// Saving `stored`, the last thing but the answer.
pub open spec fn saving(stored: StoredView) -> (PhaseView, ActionView) {
    (PhaseView::SavingFile(stored), ActionView::WriteFile(stored))
}

/// The credential in use changes before `stored` is saved.
pub open spec fn changing(stored: StoredView, change: CredentialView) -> (PhaseView, ActionView) {
    match change {
        CredentialView::Keep => saving(stored),
        CredentialView::Write(auth) => (PhaseView::SavingAuth(stored), ActionView::WriteAuth(auth)),
        CredentialView::Clear => (PhaseView::SavingAuth(stored), ActionView::ClearAuth),
    }
}

/// The sessions before `at` have been refreshed; the next one follows.
pub open spec fn refreshing(stored: StoredView, at: int) -> (PhaseView, ActionView) {
    if at < stored.sessions.len() {
        (
            PhaseView::FetchingListed(stored, at),
            ActionView::FetchAccounts(stored.sessions[at].auth_json),
        )
    } else {
        saving(stored)
    }
}

/// `stored` with the session at `at` refreshed.
pub open spec fn refreshed_at(
    stored: StoredView,
    at: int,
    answer: Option<AccountsView>,
) -> StoredView {
    if at < stored.sessions.len() {
        StoredView {
            sessions: stored.sessions.update(at, refreshed(stored.sessions[at], answer)),
            ..stored
        }
    } else {
        stored
    }
}

/// The saved sessions have been loaded.
pub open spec fn loaded(request: RequestView, stored: StoredView, now: i64) -> (
    PhaseView,
    ActionView,
) {
    match request {
        RequestView::Add { .. } => (
            PhaseView::ReadingAuth(TargetView::Add(stored)),
            ActionView::ReadAuth,
        ),
        RequestView::List { refresh } => if refresh {
            refreshing(stored, 0)
        } else {
            answered(stored)
        },
        RequestView::Logout { session_id } => if stored.has(session_id) {
            (
                PhaseView::Revoking(stored.without(session_id)),
                ActionView::RevokeTokens(stored.session(session_id).auth_json),
            )
        } else {
            failed(SessionsError::SessionNotFound)
        },
        RequestView::Switch { session_id, account_id } => if !stored.has(session_id) {
            failed(SessionsError::SessionNotFound)
        } else if stored.session(session_id).auth_json.tokens is None {
            failed(SessionsError::NoTokens)
        } else {
            (
                PhaseView::SavingAuth(stored.switched(session_id, account_id, now)),
                ActionView::WriteAuth(
                    bound_to(stored.session(session_id).auth_json, Some(account_id)),
                ),
            )
        },
    }
}

/// The list whose only session is in use.
pub open spec fn imported(session: SessionView) -> StoredView {
    StoredView { active_session_id: Some(session.session_id), sessions: seq![session] }
}

/// A session has been made.
pub open spec fn session_made(target: TargetView, session: SessionView) -> (PhaseView, ActionView) {
    match target {
        TargetView::Import => (
            PhaseView::SavingImport(imported(session)),
            ActionView::WriteFile(imported(session)),
        ),
        TargetView::Add(stored) => (
            PhaseView::FetchingAdded(stored, session),
            ActionView::FetchAccounts(session.auth_json),
        ),
    }
}

/// The claims of a credential are known; a session is made of it.
pub open spec fn claims_known(
    target: TargetView,
    auth: AuthView,
    claims: ClaimsView,
    session_id: Seq<char>,
    now: i64,
) -> (PhaseView, ActionView) {
    match auth.tokens {
        Some(tokens) => session_made(target, session_of(auth, tokens, claims, session_id, now)),
        None => failed(SessionsError::NoActiveAuth),
    }
}

/// A credential has been found to make a session of.
pub open spec fn auth_found(
    target: TargetView,
    auth: AuthView,
    session_id: Seq<char>,
    now: i64,
) -> (PhaseView, ActionView) {
    match auth.tokens {
        Some(tokens) => match payload_of(tokens.access_token) {
            Some(payload) => (
                PhaseView::ParsingClaims(target, auth),
                ActionView::ParseClaims(payload),
            ),
            None => claims_known(target, auth, no_claims(), session_id, now),
        },
        None => failed(SessionsError::NoActiveAuth),
    }
}

impl OperationView {
    /// Whether `event` is what the operation waits for.
    pub open spec fn awaits(self, event: EventView) -> bool {
        match self.phase {
            PhaseView::ReadingFile => event is FileRead,
            PhaseView::ReadingAuth(_) => event is AuthRead,
            PhaseView::ParsingClaims(_, _) => event is ClaimsParsed,
            PhaseView::FetchingAdded(_, _) => event is AccountsFetched,
            PhaseView::FetchingListed(_, _) => event is AccountsFetched,
            PhaseView::Finished => false,
            _ => event is Done,
        }
    }

    /// What follows an event, where a session made now has the id `session_id` and the time is
    /// `now`.
    pub open spec fn after(self, event: EventView, session_id: Seq<char>, now: i64) -> (
        PhaseView,
        ActionView,
    ) {
        match (self.phase, event) {
            (PhaseView::ReadingFile, EventView::FileRead(Ok(stored))) => loaded(
                self.request,
                stored,
                now,
            ),
            (PhaseView::ReadingFile, EventView::FileRead(Err(IoErrorKind::NotFound))) => (
                PhaseView::ReadingAuth(TargetView::Import),
                ActionView::ReadAuth,
            ),
            (PhaseView::ReadingAuth(target), EventView::AuthRead(Ok(Some(auth)))) => auth_found(
                target,
                auth,
                session_id,
                now,
            ),
            (PhaseView::ReadingAuth(TargetView::Import), EventView::AuthRead(Ok(None))) => loaded(
                self.request,
                StoredView { active_session_id: None, sessions: Seq::empty() },
                now,
            ),
            (PhaseView::ReadingAuth(TargetView::Add(_)), EventView::AuthRead(Ok(None))) => failed(
                SessionsError::NoActiveAuth,
            ),
            (PhaseView::ParsingClaims(target, auth), EventView::ClaimsParsed(parsed)) =>
            claims_known(target, auth, claims_or_none(parsed), session_id, now),
            (PhaseView::SavingImport(stored), EventView::Done(Ok(_))) => loaded(
                self.request,
                stored,
                now,
            ),
            (PhaseView::FetchingAdded(stored, session), EventView::AccountsFetched(answer)) => {
                let added = refreshed(session, answer);
                let switch = self.request matches RequestView::Add { switch } && switch;
                changing(
                    stored.with_added(added, switch),
                    if switch {
                        CredentialView::Write(added.auth_json)
                    } else {
                        CredentialView::Keep
                    },
                )
            },
            (PhaseView::FetchingListed(stored, at), EventView::AccountsFetched(answer)) =>
            refreshing(refreshed_at(stored, at, answer), at + 1),
            (PhaseView::Revoking(stored), EventView::Done(_)) => match self.request {
                RequestView::Logout { session_id } => changing(
                    stored.with_successor(session_id),
                    stored.successor_credential(session_id),
                ),
                _ => saving(stored),
            },
            (PhaseView::SavingAuth(stored), EventView::Done(Ok(_))) => saving(stored),
            (PhaseView::SavingFile(stored), EventView::Done(Ok(_))) => answered(stored),
            _ => failed(SessionsError::Io),
        }
    }
}

/// The end of an operation that failed.
fn fail(error: SessionsError) -> (res: (Phase, Action))
    ensures
        (res.0@, res.1@) == failed(error),
{
    (Phase::Finished, Action::Finish(Err(error)))
}

/// Saving the sessions.
fn save(stored: StoredAccountSessions) -> (res: (Phase, Action))
    ensures
        (res.0@, res.1@) == saving(stored@),
{
    let written: StoredAccountSessions = stored.clone();
    (Phase::SavingFile(stored), Action::WriteFile(written))
}

/// Changing the credential in use, then saving the sessions.
fn change_credential(stored: StoredAccountSessions, change: CredentialChange) -> (res: (
    Phase,
    Action,
))
    ensures
        (res.0@, res.1@) == changing(stored@, change@),
{
    match change {
        CredentialChange::Keep => save(stored),
        CredentialChange::Write(auth) => (Phase::SavingAuth(stored), Action::WriteAuth(auth)),
        CredentialChange::Clear => (Phase::SavingAuth(stored), Action::ClearAuth),
    }
}

/// Refreshing the sessions from `at` on.
fn refresh_from(stored: StoredAccountSessions, at: usize) -> (res: (Phase, Action))
    ensures
        (res.0@, res.1@) == refreshing(stored@, at as int),
{
    if at < stored.sessions.len() {
        let auth: AuthDotJson = stored.sessions[at].auth_json.clone();
        (Phase::FetchingListed(stored, at), Action::FetchAccounts(auth))
    } else {
        save(stored)
    }
}

/// The request, once the saved sessions have been loaded.
fn serve(request: &Request, stored: StoredAccountSessions) -> (res: (Phase, Action))
    ensures
        exists|now: i64| (res.0@, res.1@) == #[trigger] loaded(request@, stored@, now),
{
    let ghost before = stored@;
    let mut stored = stored;
    match request {
        Request::Add { .. } => {
            let res = (Phase::ReadingAuth(Target::Add(stored)), Action::ReadAuth);
            assert((res.0@, res.1@) == loaded(request@, before, 0));
            res
        },
        Request::List { refresh_workspace_metadata } => {
            let res = if *refresh_workspace_metadata {
                refresh_from(stored, 0)
            } else {
                (Phase::Finished, Action::Finish(Ok(response(stored))))
            };
            assert((res.0@, res.1@) == loaded(request@, before, 0));
            res
        },
        Request::Logout { session_id } => {
            let res = match stored.remove_session(session_id) {
                Ok(removed) => (Phase::Revoking(stored), Action::RevokeTokens(removed.auth_json)),
                Err(error) => fail(error),
            };
            assert((res.0@, res.1@) == loaded(request@, before, 0));
            res
        },
        Request::Switch { session_id, account_id } => {
            if let Some(error) = stored.switch_refusal(session_id) {
                let res = fail(error);
                assert((res.0@, res.1@) == loaded(request@, before, 0));
                return res;
            }
            let now: i64 = unix_now();
            let res = match stored.switch_session(session_id, account_id, now) {
                Ok(auth) => (Phase::SavingAuth(stored), Action::WriteAuth(auth)),
                Err(error) => fail(error),
            };
            assert((res.0@, res.1@) == loaded(request@, before, now));
            res
        },
    }
}

/// A session of a credential whose claims are known.
fn make_session(target: Target, auth: AuthDotJson, claims: AccessTokenClaims) -> (res: (
    Phase,
    Action,
))
    ensures
        exists|session_id: Seq<char>, now: i64|
            is_v7_text(session_id) && (res.0@, res.1@) == #[trigger] claims_known(
                target@,
                auth@,
                claims@,
                session_id,
                now,
            ),
{
    match session_from_auth_json(auth, claims) {
        Ok(session) => {
            let ghost view = session@;
            let made: AuthDotJson = session.auth_json.clone();
            let res = match target {
                Target::Import => {
                    let active: String = session.session_id.clone();
                    let sessions: Vec<StoredAccountSession> = vec![session];
                    assert(sessions.deep_view() =~= seq![view]);
                    let stored = StoredAccountSessions {
                        active_session_id: Some(active),
                        sessions,
                    };
                    let written: StoredAccountSessions = stored.clone();
                    (Phase::SavingImport(stored), Action::WriteFile(written))
                },
                Target::Add(stored) => (
                    Phase::FetchingAdded(stored, session),
                    Action::FetchAccounts(made),
                ),
            };
            assert((res.0@, res.1@) == claims_known(
                target@,
                auth@,
                claims@,
                view.session_id,
                view.last_used_at,
            ));
            res
        },
        Err(error) => {
            let res = fail(error);
            proof {
                let id = some_v7_text();
                assert((res.0@, res.1@) == claims_known(target@, auth@, claims@, id, 0));
            }
            res
        },
    }
}

/// A session of a credential that has been found: its claims are read first, if it has any.
fn use_auth(target: Target, auth: AuthDotJson) -> (res: (Phase, Action))
    ensures
        exists|session_id: Seq<char>, now: i64|
            is_v7_text(session_id) && (res.0@, res.1@) == #[trigger] auth_found(
                target@,
                auth@,
                session_id,
                now,
            ),
{
    let payload: Option<Vec<u8>> = match &auth.tokens {
        Some(tokens) => access_token_payload(tokens.access_token.as_str()),
        None => {
            let res = fail(SessionsError::NoActiveAuth);
            proof {
                let id = some_v7_text();
                assert((res.0@, res.1@) == auth_found(target@, auth@, id, 0));
            }
            return res;
        },
    };
    match payload {
        Some(payload) => {
            let ghost t = target@;
            let ghost a = auth@;
            let res = (Phase::ParsingClaims(target, auth), Action::ParseClaims(payload));
            proof {
                let id = some_v7_text();
                assert((res.0@, res.1@) == auth_found(t, a, id, 0));
            }
            res
        },
        None => {
            let ghost t = target@;
            let ghost a = auth@;
            let res = make_session(target, auth, AccessTokenClaims::default());
            proof {
                let (id, now) = choose|id: Seq<char>, now: i64|
                    is_v7_text(id) && (res.0@, res.1@) == #[trigger] claims_known(
                        t,
                        a,
                        no_claims(),
                        id,
                        now,
                    );
                assert((res.0@, res.1@) == auth_found(t, a, id, now));
            }
            res
        },
    }
}

impl Operation {
    /// Begins an operation. The file with the saved sessions is read first.
    pub fn start(request: Request) -> (res: (Operation, Action))
        ensures
            res.0@ == (OperationView { request: request@, phase: PhaseView::ReadingFile }),
            res.1@ == ActionView::ReadFile,
    {
        (Operation { request, phase: Phase::ReadingFile }, Action::ReadFile)
    }

    /// Whether an event is what the operation waits for.
    pub fn expects(&self, event: &Event) -> (res: bool)
        ensures
            res == self@.awaits(event@),
    {
        match (&self.phase, event) {
            (Phase::ReadingFile, Event::FileRead(_)) => true,
            (Phase::ReadingAuth(_), Event::AuthRead(_)) => true,
            (Phase::ParsingClaims(_, _), Event::ClaimsParsed(_)) => true,
            (Phase::FetchingAdded(_, _), Event::AccountsFetched(_)) => true,
            (Phase::FetchingListed(_, _), Event::AccountsFetched(_)) => true,
            (Phase::SavingImport(_), Event::Done(_)) => true,
            (Phase::Revoking(_), Event::Done(_)) => true,
            (Phase::SavingAuth(_), Event::Done(_)) => true,
            (Phase::SavingFile(_), Event::Done(_)) => true,
            _ => false,
        }
    }

    /// Goes on after an event.
    pub fn step(self, event: Event) -> (res: (Operation, Action))
        requires
            self@.awaits(event@),
        ensures
            res.0@.request == self@.request,
            exists|session_id: Seq<char>, now: i64|
                is_v7_text(session_id) && (res.0@.phase, res.1@) == #[trigger] self@.after(
                    event@,
                    session_id,
                    now,
                ),
    {
        let ghost this = self@;
        let ghost happened = event@;
        let ghost mut session_id: Seq<char> = Seq::empty();
        let ghost mut now: i64 = 0;
        proof {
            session_id = some_v7_text();
        }
        let request: Request = self.request;
        let (phase, action) = match (self.phase, event) {
            (Phase::ReadingFile, Event::FileRead(Ok(stored))) => {
                let ghost view = stored@;
                let next = serve(&request, stored);
                proof {
                    now = choose|now: i64|
                        (next.0@, next.1@) == #[trigger] loaded(request@, view, now);
                }
                next
            },
            (Phase::ReadingFile, Event::FileRead(Err(IoErrorKind::NotFound))) => (
                Phase::ReadingAuth(Target::Import),
                Action::ReadAuth,
            ),
            (Phase::ReadingAuth(target), Event::AuthRead(Ok(Some(auth)))) => {
                let ghost views = (target@, auth@);
                let next = use_auth(target, auth);
                proof {
                    let minted = choose|id: Seq<char>, now: i64|
                        is_v7_text(id) && (next.0@, next.1@) == #[trigger] auth_found(
                            views.0,
                            views.1,
                            id,
                            now,
                        );
                    session_id = minted.0;
                    now = minted.1;
                }
                next
            },
            (Phase::ReadingAuth(Target::Import), Event::AuthRead(Ok(None))) => {
                let stored = StoredAccountSessions::default();
                let ghost view = stored@;
                let next = serve(&request, stored);
                proof {
                    now = choose|now: i64|
                        (next.0@, next.1@) == #[trigger] loaded(request@, view, now);
                }
                next
            },
            (Phase::ReadingAuth(Target::Add(_)), Event::AuthRead(Ok(None))) => fail(
                SessionsError::NoActiveAuth,
            ),
            (Phase::ParsingClaims(target, auth), Event::ClaimsParsed(parsed)) => {
                let ghost views = (target@, auth@);
                let claims: AccessTokenClaims = access_token_claims(parsed);
                let ghost said = claims@;
                let next = make_session(target, auth, claims);
                proof {
                    let minted = choose|id: Seq<char>, now: i64|
                        is_v7_text(id) && (next.0@, next.1@) == #[trigger] claims_known(
                            views.0,
                            views.1,
                            said,
                            id,
                            now,
                        );
                    session_id = minted.0;
                    now = minted.1;
                }
                next
            },
            (Phase::SavingImport(stored), Event::Done(Ok(_))) => {
                let ghost view = stored@;
                let next = serve(&request, stored);
                proof {
                    now = choose|now: i64|
                        (next.0@, next.1@) == #[trigger] loaded(request@, view, now);
                }
                next
            },
            (Phase::FetchingAdded(stored, session), Event::AccountsFetched(answer)) => {
                let mut stored = stored;
                let mut session = session;
                session.refresh_workspace_metadata(answer);
                let switch: bool = match &request {
                    Request::Add { switch_to_added_account } => *switch_to_added_account,
                    _ => false,
                };
                let change: CredentialChange = stored.add_session(session, switch);
                change_credential(stored, change)
            },
            (Phase::FetchingListed(stored, at), Event::AccountsFetched(answer)) => {
                let mut stored = stored;
                if at < stored.sessions.len() {
                    let ghost before = stored@;
                    let ghost given = answer.deep_view();
                    let mut session: StoredAccountSession = stored.sessions[at].clone();
                    session.refresh_workspace_metadata(answer);
                    stored.sessions.set(at, session);
                    assert(stored@.sessions =~= refreshed_at(before, at as int, given).sessions);
                    refresh_from(stored, at + 1)
                } else {
                    save(stored)
                }
            },
            (Phase::Revoking(stored), Event::Done(_)) => {
                let mut stored = stored;
                match &request {
                    Request::Logout { session_id } => {
                        let change: CredentialChange = stored.succeed(session_id);
                        change_credential(stored, change)
                    },
                    _ => save(stored),
                }
            },
            (Phase::SavingAuth(stored), Event::Done(Ok(_))) => save(stored),
            (Phase::SavingFile(stored), Event::Done(Ok(_))) => (
                Phase::Finished,
                Action::Finish(Ok(response(stored))),
            ),
            _ => fail(SessionsError::Io),
        };
        assert((phase@, action@) == this.after(happened, session_id, now));
        (Operation { request, phase }, action)
    }
}

/// What clearing the saved sessions answers: that their file was not there is no failure.
pub fn cleared(removal: Result<(), IoErrorKind>) -> (res: Result<(), SessionsError>)
    ensures
        res == match removal {
            Err(IoErrorKind::Other) => Err::<(), _>(SessionsError::Io),
            _ => Ok::<(), _>(()),
        },
{
    match removal {
        Ok(()) => Ok(()),
        Err(IoErrorKind::NotFound) => Ok(()),
        Err(IoErrorKind::Other) => Err(SessionsError::Io),
    }
}

} // verus!
