use codex_sessions::accounts::operation::{
    cleared, Action, Event, IoErrorKind, Operation, Phase, Request, ACCOUNT_SESSIONS_FILE,
};
use codex_sessions::accounts::response::response;
use codex_sessions::accounts::session::SessionsError;
use codex_sessions::accounts::types::{
    AccountsCheck, AccessTokenClaims, AuthDotJson, StoredAccountSession, StoredAccountSessions,
    TokenData,
};

fn some(text: &str) -> Option<String> {
    Some(text.to_string())
}

fn auth_with(token: &str, account_id: Option<&str>) -> AuthDotJson {
    AuthDotJson {
        tokens: Some(TokenData {
            access_token: token.to_string(),
            account_id: account_id.map(|id| id.to_string()),
            rest: "{}".to_string(),
        }),
        rest: "{}".to_string(),
    }
}

fn session(id: &str, used: i64) -> StoredAccountSession {
    StoredAccountSession {
        session_id: id.to_string(),
        auth_json: auth_with("h.e30.s", Some(id)),
        email: some(id),
        user_id: None,
        display_name: None,
        image_url: None,
        plan: None,
        last_used_at: used,
        selected_workspace_account_id: some(id),
        workspaces: vec![],
    }
}

fn stored(active: Option<&str>, sessions: Vec<StoredAccountSession>) -> StoredAccountSessions {
    StoredAccountSessions {
        active_session_id: active.map(|id| id.to_string()),
        sessions,
    }
}

fn two() -> StoredAccountSessions {
    stored(Some("a"), vec![session("a", 1), session("b", 2)])
}

fn read(list: StoredAccountSessions) -> Event {
    Event::FileRead(Ok(list))
}

fn done() -> Event {
    Event::Done(Ok(()))
}

fn missing() -> Event {
    Event::FileRead(Err(IoErrorKind::NotFound))
}

/// What an operation says to do after events that it waits for, one action per event.
fn actions(request: Request, events: Vec<Event>) -> (Operation, Vec<Action>) {
    let (mut operation, first) = Operation::start(request);
    let mut said = vec![first];
    for event in events {
        let (next, action) = operation.step(event);
        operation = next;
        said.push(action);
    }
    (operation, said)
}

fn last(request: Request, events: Vec<Event>) -> Action {
    let (_, mut said) = actions(request, events);
    said.pop().unwrap()
}

fn list() -> Request {
    Request::List {
        refresh_workspace_metadata: false,
    }
}

fn refresh() -> Request {
    Request::List {
        refresh_workspace_metadata: true,
    }
}

fn add(switch_to_added_account: bool) -> Request {
    Request::Add {
        switch_to_added_account,
    }
}

fn logout(id: &str) -> Request {
    Request::Logout {
        session_id: id.to_string(),
    }
}

fn switch(id: &str, account: &str) -> Request {
    Request::Switch {
        session_id: id.to_string(),
        account_id: account.to_string(),
    }
}

#[test]
fn the_file_has_this_name() {
    assert_eq!(ACCOUNT_SESSIONS_FILE, "account-sessions.json");
}

#[test]
fn listing_shows_what_is_saved() {
    let (operation, said) = actions(list(), vec![read(two())]);
    assert_eq!(
        said,
        vec![Action::ReadFile, Action::Finish(Ok(response(two())))]
    );
    assert_eq!(operation.phase, Phase::Finished);
}

#[test]
fn nothing_saved_and_no_credential_is_an_empty_list() {
    let (_, said) = actions(list(), vec![missing(), Event::AuthRead(Ok(None))]);
    assert_eq!(
        said,
        vec![
            Action::ReadFile,
            Action::ReadAuth,
            Action::Finish(Ok(response(StoredAccountSessions::default()))),
        ]
    );
}

#[test]
fn the_credential_in_use_is_the_first_session() {
    let credential = auth_with("h.e30.s", Some("acc"));
    let (_, said) = actions(
        list(),
        vec![
            missing(),
            Event::AuthRead(Ok(Some(credential.clone()))),
            Event::ClaimsParsed(None),
            done(),
        ],
    );
    assert_eq!(said.len(), 5);
    assert_eq!(said[2], Action::ParseClaims(b"{}".to_vec()));
    let Action::WriteFile(written) = &said[3] else {
        panic!("the list should be written");
    };
    assert_eq!(written.sessions.len(), 1);
    assert_eq!(written.sessions[0].auth_json, credential);
    assert_eq!(
        written.active_session_id.as_ref(),
        Some(&written.sessions[0].session_id)
    );
    assert_eq!(said[4], Action::Finish(Ok(response(written.clone()))));
}

#[test]
fn a_token_without_claims_is_saved_without_parsing() {
    let (_, said) = actions(
        list(),
        vec![
            missing(),
            Event::AuthRead(Ok(Some(auth_with("opaque", None)))),
        ],
    );
    let Action::WriteFile(written) = &said[2] else {
        panic!("the list should be written");
    };
    assert_eq!(written.sessions[0].email, None);
    assert_eq!(written.sessions[0].selected_workspace_account_id, None);
}

#[test]
fn a_credential_without_tokens_makes_no_session() {
    let empty = AuthDotJson {
        tokens: None,
        rest: "{}".to_string(),
    };
    let refused = Action::Finish(Err(SessionsError::NoActiveAuth));
    assert_eq!(
        last(
            list(),
            vec![missing(), Event::AuthRead(Ok(Some(empty.clone())))]
        ),
        refused
    );
    assert_eq!(
        last(
            add(true),
            vec![read(two()), Event::AuthRead(Ok(Some(empty)))]
        ),
        refused
    );
    assert_eq!(
        last(add(true), vec![read(two()), Event::AuthRead(Ok(None))]),
        refused
    );
}

#[test]
fn refreshing_asks_about_every_session() {
    let answer = AccountsCheck {
        default_account_id: None,
        account_ordering: vec![],
        accounts: vec![],
    };
    let (_, said) = actions(
        refresh(),
        vec![
            read(two()),
            Event::AccountsFetched(None),
            Event::AccountsFetched(Some(answer)),
            done(),
        ],
    );
    assert_eq!(
        said,
        vec![
            Action::ReadFile,
            Action::FetchAccounts(auth_with("h.e30.s", Some("a"))),
            Action::FetchAccounts(auth_with("h.e30.s", Some("b"))),
            Action::WriteFile(two()),
            Action::Finish(Ok(response(two()))),
        ]
    );
}

#[test]
fn refreshing_nothing_still_saves() {
    let empty = StoredAccountSessions::default;
    let (_, said) = actions(refresh(), vec![read(empty()), done()]);
    assert_eq!(
        said,
        vec![
            Action::ReadFile,
            Action::WriteFile(empty()),
            Action::Finish(Ok(response(empty()))),
        ]
    );
}

fn claims(email: &str) -> AccessTokenClaims {
    let mut claims = AccessTokenClaims::default();
    claims.profile.email = some(email);
    claims
}

#[test]
fn adding_without_switching_keeps_the_credential() {
    let credential = auth_with("h.e30.s", Some("new"));
    let (_, said) = actions(
        add(false),
        vec![
            read(two()),
            Event::AuthRead(Ok(Some(credential.clone()))),
            Event::ClaimsParsed(Some(claims("b"))),
            Event::AccountsFetched(None),
            done(),
        ],
    );
    assert_eq!(said[1], Action::ReadAuth);
    assert_eq!(said[3], Action::FetchAccounts(credential.clone()));
    let Action::WriteFile(written) = &said[4] else {
        panic!("the list should be written");
    };
    assert_eq!(written.sessions.len(), 2);
    assert_eq!(written.sessions[1].session_id, "b");
    assert_eq!(written.sessions[1].auth_json, credential);
    assert_eq!(written.active_session_id, some("a"));
    assert_eq!(said[5], Action::Finish(Ok(response(written.clone()))));
}

#[test]
fn adding_and_switching_writes_the_credential_first() {
    let credential = auth_with("h.e30.s", Some("new"));
    let (_, said) = actions(
        add(true),
        vec![
            read(two()),
            Event::AuthRead(Ok(Some(credential.clone()))),
            Event::ClaimsParsed(Some(claims("c"))),
            Event::AccountsFetched(None),
            done(),
            done(),
        ],
    );
    assert_eq!(said[4], Action::WriteAuth(credential));
    let Action::WriteFile(written) = &said[5] else {
        panic!("the list should be written");
    };
    assert_eq!(written.sessions.len(), 3);
    assert_eq!(
        written.active_session_id.as_ref(),
        Some(&written.sessions[2].session_id)
    );
    assert_eq!(said[6], Action::Finish(Ok(response(written.clone()))));
}

#[test]
fn adding_after_importing_saves_one_session() {
    let credential = auth_with("h.e30.s", Some("acc"));
    let (_, said) = actions(
        add(false),
        vec![
            missing(),
            Event::AuthRead(Ok(Some(credential.clone()))),
            Event::ClaimsParsed(Some(claims("a"))),
            done(),
            Event::AuthRead(Ok(Some(credential))),
            Event::ClaimsParsed(Some(claims("a"))),
            Event::AccountsFetched(None),
        ],
    );
    let (Action::WriteFile(imported), Action::WriteFile(written)) = (&said[3], &said[7]) else {
        panic!("the list should be written twice");
    };
    assert_eq!(written.sessions.len(), 1);
    assert_eq!(
        written.sessions[0].session_id,
        imported.sessions[0].session_id
    );
    assert_eq!(written.active_session_id, imported.active_session_id);
}

#[test]
fn logging_out_of_the_session_in_use() {
    let after = stored(Some("b"), vec![session("b", 2)]);
    for revoked in [Ok(()), Err(IoErrorKind::Other)] {
        let (_, said) = actions(
            logout("a"),
            vec![read(two()), Event::Done(revoked), done(), done()],
        );
        assert_eq!(
            said,
            vec![
                Action::ReadFile,
                Action::RevokeTokens(auth_with("h.e30.s", Some("a"))),
                Action::WriteAuth(auth_with("h.e30.s", Some("b"))),
                Action::WriteFile(after.clone()),
                Action::Finish(Ok(response(after.clone()))),
            ]
        );
    }
}

#[test]
fn logging_out_of_the_last_session_clears_the_credential() {
    let one = stored(Some("a"), vec![session("a", 1)]);
    let (_, said) = actions(logout("a"), vec![read(one), done(), done(), done()]);
    assert_eq!(said[2], Action::ClearAuth);
    assert_eq!(said[3], Action::WriteFile(StoredAccountSessions::default()));
}

#[test]
fn logging_out_of_another_session_keeps_the_credential() {
    let after = stored(Some("a"), vec![session("a", 1)]);
    let (_, said) = actions(logout("b"), vec![read(two()), done(), done()]);
    assert_eq!(said[2], Action::WriteFile(after.clone()));
    assert_eq!(said[3], Action::Finish(Ok(response(after))));
}

#[test]
fn switching_writes_the_credential_and_then_the_list() {
    let (_, said) = actions(switch("b", "acc"), vec![read(two()), done(), done()]);
    assert_eq!(
        said[1],
        Action::WriteAuth(auth_with("h.e30.s", Some("acc")))
    );
    let Action::WriteFile(written) = &said[2] else {
        panic!("the list should be written");
    };
    assert_eq!(written.active_session_id, some("b"));
    assert_eq!(written.sessions[0], session("a", 1));
    assert!(written.sessions[1].last_used_at > 1_600_000_000);
    assert_eq!(said[3], Action::Finish(Ok(response(written.clone()))));
    assert_eq!(last(list(), vec![read(written.clone())]), said[3]);
}

#[test]
fn requests_that_are_refused_change_nothing() {
    let mut without = session("b", 2);
    without.auth_json.tokens = None;
    let cases = vec![
        (logout("x"), two(), SessionsError::SessionNotFound),
        (switch("x", "acc"), two(), SessionsError::SessionNotFound),
        (
            switch("b", "acc"),
            stored(Some("a"), vec![session("a", 1), without]),
            SessionsError::NoTokens,
        ),
    ];
    for (request, list, error) in cases {
        let (_, said) = actions(request, vec![read(list)]);
        assert_eq!(said, vec![Action::ReadFile, Action::Finish(Err(error))]);
    }
}

#[test]
fn what_fails_outside_ends_an_operation() {
    let failed = Action::Finish(Err(SessionsError::Io));
    let broken = || Event::Done(Err(IoErrorKind::Other));
    let unread = Event::FileRead(Err(IoErrorKind::Other));
    assert_eq!(last(list(), vec![unread]), failed);
    assert_eq!(
        last(
            list(),
            vec![missing(), Event::AuthRead(Err(IoErrorKind::Other))]
        ),
        failed
    );
    assert_eq!(last(refresh(), vec![read(two()), Event::AccountsFetched(None), Event::AccountsFetched(None), broken()]), failed);
    assert_eq!(
        last(switch("b", "acc"), vec![read(two()), broken()]),
        failed
    );
    assert_eq!(
        last(
            switch("b", "acc"),
            vec![read(two()), done(), Event::Done(Err(IoErrorKind::NotFound))]
        ),
        failed
    );
}

#[test]
fn clearing_what_is_not_there_is_no_failure() {
    assert_eq!(cleared(Ok(())), Ok(()));
    assert_eq!(cleared(Err(IoErrorKind::NotFound)), Ok(()));
    assert_eq!(
        cleared(Err(IoErrorKind::Other)),
        Err(SessionsError::Io)
    );
}

#[test]
fn an_operation_expects_what_it_asked_for() {
    let (operation, action) = Operation::start(list());
    assert_eq!(action, Action::ReadFile);
    assert!(operation.expects(&missing()));
    assert!(!operation.expects(&done()));
    let (operation, _) = operation.step(missing());
    assert!(operation.expects(&Event::AuthRead(Ok(None))));
    assert!(!operation.expects(&missing()));
    let (operation, _) = operation.step(Event::AuthRead(Ok(None)));
    assert!(!operation.expects(&done()));
}

#[test]
fn a_request_is_served_from_a_first_list() {
    let mut credential = auth_with("opaque", Some("acc"));
    credential.rest = "{\"k\":1}".to_string();
    let (operation, action) = Operation::start(switch("x", "other"));
    assert_eq!(action, Action::ReadFile);
    let (operation, _) = operation.step(missing());
    let (operation, action) = operation.step(Event::AuthRead(Ok(Some(credential))));
    let Action::WriteFile(written) = action else {
        panic!("the list should be written");
    };
    assert_eq!(written.sessions.len(), 1);
    let (_, action) = operation.step(done());
    assert_eq!(
        action,
        Action::Finish(Err(SessionsError::SessionNotFound))
    );
}
