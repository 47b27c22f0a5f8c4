use codex_sessions::accounts::response::response;
use codex_sessions::accounts::session::{
    access_token_claims, access_token_payload, session_from_auth_json, session_from_claims,
    workspace_from_account, SessionsError,
};
use codex_sessions::accounts::store::CredentialChange;
use codex_sessions::accounts::types::{
    AccessTokenAuthClaims, AccessTokenClaims, AccessTokenProfileClaims, AccountEntry,
    AccountSessionWorkspace, AccountSessionWorkspaceKind, AccountSessionWorkspaceStatus,
    AccountsCheck, AuthDotJson, StoredAccountSession, StoredAccountSessions, TokenData,
};

fn some(text: &str) -> Option<String> {
    Some(text.to_string())
}

fn auth(account_id: Option<&str>) -> AuthDotJson {
    AuthDotJson {
        tokens: Some(TokenData {
            access_token: "h.e30.s".to_string(),
            account_id: account_id.map(|id| id.to_string()),
            rest: "{\"refresh_token\":\"r\"}".to_string(),
        }),
        rest: "{}".to_string(),
    }
}

fn bare(account_id: &str) -> AccountSessionWorkspace {
    AccountSessionWorkspace {
        account_id: account_id.to_string(),
        name: None,
        image_url: None,
        kind: None,
        status: AccountSessionWorkspaceStatus::Active,
    }
}

fn claims() -> AccessTokenClaims {
    AccessTokenClaims {
        auth: AccessTokenAuthClaims {
            chatgpt_account_id: some("acc-claim"),
            chatgpt_plan_type: some("pro"),
            chatgpt_user_id: some("user-1"),
        },
        profile: AccessTokenProfileClaims {
            email: some("a@example.com"),
            image: some("image"),
            name: some("Ada"),
            picture: some("picture"),
        },
    }
}

fn session(id: &str, email: Option<&str>, user: Option<&str>, used: i64) -> StoredAccountSession {
    StoredAccountSession {
        session_id: id.to_string(),
        auth_json: auth(Some(id)),
        email: email.map(|text| text.to_string()),
        user_id: user.map(|text| text.to_string()),
        display_name: None,
        image_url: None,
        plan: None,
        last_used_at: used,
        selected_workspace_account_id: None,
        workspaces: vec![],
    }
}

fn stored(active: Option<&str>, sessions: Vec<StoredAccountSession>) -> StoredAccountSessions {
    StoredAccountSessions {
        active_session_id: active.map(|id| id.to_string()),
        sessions,
    }
}

fn ids(stored: &StoredAccountSessions) -> Vec<&str> {
    stored
        .sessions
        .iter()
        .map(|session| session.session_id.as_str())
        .collect()
}

#[test]
fn a_payload_is_the_second_part_of_a_token() {
    assert_eq!(access_token_payload("h.e30.s"), Some(b"{}".to_vec()));
    assert_eq!(access_token_payload("h.e30"), Some(b"{}".to_vec()));
    assert_eq!(access_token_payload("h..s"), Some(vec![]));
    assert_eq!(access_token_payload("h.e30=.s"), None);
    assert_eq!(access_token_payload("nodots"), None);
    assert_eq!(access_token_payload(""), None);
}

#[test]
fn claims_that_cannot_be_read_are_none() {
    assert_eq!(access_token_claims(Some(claims())), claims());
    assert_eq!(access_token_claims(None), AccessTokenClaims::default());
    assert_eq!(AccessTokenClaims::default().profile.email, None);
}

#[test]
fn a_session_takes_what_its_claims_say() {
    let made = session_from_claims(auth(None), claims(), "id".to_string(), 7);
    assert_eq!(
        made,
        Ok(StoredAccountSession {
            session_id: "id".to_string(),
            auth_json: auth(None),
            email: some("a@example.com"),
            user_id: some("user-1"),
            display_name: some("Ada"),
            image_url: some("picture"),
            plan: some("pro"),
            last_used_at: 7,
            selected_workspace_account_id: some("acc-claim"),
            workspaces: vec![bare("acc-claim")],
        })
    );
}

#[test]
fn the_account_of_the_tokens_comes_before_that_of_the_claims() {
    let made = session_from_claims(auth(Some("acc")), claims(), "id".to_string(), 7).unwrap();
    assert_eq!(made.selected_workspace_account_id, some("acc"));
    assert_eq!(made.workspaces, vec![bare("acc")]);
    let none =
        session_from_claims(auth(None), AccessTokenClaims::default(), "id".to_string(), 7).unwrap();
    assert_eq!(none.selected_workspace_account_id, None);
    assert_eq!(none.workspaces, vec![]);
    let mut said = claims();
    said.profile.picture = None;
    let shown = session_from_claims(auth(None), said, "id".to_string(), 7).unwrap();
    assert_eq!(shown.image_url, some("image"));
}

#[test]
fn without_tokens_there_is_no_session() {
    let empty = AuthDotJson {
        tokens: None,
        rest: "{}".to_string(),
    };
    assert_eq!(
        session_from_claims(empty.clone(), claims(), "id".to_string(), 7),
        Err(SessionsError::NoActiveAuth)
    );
    assert_eq!(
        session_from_auth_json(empty, claims()),
        Err(SessionsError::NoActiveAuth)
    );
}

#[test]
fn a_session_made_now_has_a_fresh_id_and_the_time() {
    let one = session_from_auth_json(auth(None), claims()).unwrap();
    let two = session_from_auth_json(auth(None), claims()).unwrap();
    assert_ne!(one.session_id, two.session_id);
    let id = one.session_id.as_bytes();
    assert_eq!(id.len(), 36);
    assert_eq!((id[8], id[13], id[18], id[23]), (b'-', b'-', b'-', b'-'));
    assert_eq!(id[14], b'7');
    assert!(matches!(id[19], b'8' | b'9' | b'a' | b'b'));
    assert!(one.last_used_at > 1_600_000_000);
    assert_eq!(one.email, some("a@example.com"));
}

#[test]
fn messages_of_the_failures() {
    assert_eq!(
        SessionsError::NoActiveAuth.message(),
        some("No active ChatGPT auth session to add")
    );
    assert_eq!(
        SessionsError::SessionNotFound.message(),
        some("Saved ChatGPT account session not found")
    );
    assert_eq!(
        SessionsError::NoTokens.message(),
        some("Saved ChatGPT account session has no tokens")
    );
    assert_eq!(SessionsError::Io.message(), None);
}

#[test]
fn an_account_is_a_workspace() {
    for (structure, kind) in [
        ("personal", Some(AccountSessionWorkspaceKind::Personal)),
        ("workspace", Some(AccountSessionWorkspaceKind::Workspace)),
        ("Personal", None),
        ("", None),
    ] {
        let account = AccountEntry {
            id: "acc".to_string(),
            name: some("name"),
            profile_picture_url: some("url"),
            structure: structure.to_string(),
        };
        assert_eq!(
            workspace_from_account(account),
            AccountSessionWorkspace {
                account_id: "acc".to_string(),
                name: some("name"),
                image_url: some("url"),
                kind,
                status: AccountSessionWorkspaceStatus::Active,
            }
        );
    }
}

fn answer(default: Option<&str>, ordering: &[&str]) -> AccountsCheck {
    AccountsCheck {
        default_account_id: default.map(|id| id.to_string()),
        account_ordering: ordering.iter().map(|id| id.to_string()).collect(),
        accounts: vec![AccountEntry {
            id: "acc".to_string(),
            name: None,
            profile_picture_url: None,
            structure: "other".to_string(),
        }],
    }
}

fn bound(session: &StoredAccountSession) -> Option<&str> {
    session.auth_json.tokens.as_ref()?.account_id.as_deref()
}

#[test]
fn refreshing_selects_a_workspace() {
    let fresh = || session("id", None, None, 1);

    let mut kept = fresh();
    kept.selected_workspace_account_id = some("mine");
    kept.refresh_workspace_metadata(Some(answer(Some("default"), &["first"])));
    assert_eq!(kept.selected_workspace_account_id, some("mine"));
    assert_eq!(bound(&kept), Some("mine"));
    assert_eq!(kept.workspaces, vec![bare("acc")]);

    let mut default = fresh();
    default.refresh_workspace_metadata(Some(answer(Some("default"), &["first"])));
    assert_eq!(default.selected_workspace_account_id, some("default"));
    assert_eq!(bound(&default), Some("default"));

    let mut first = fresh();
    first.refresh_workspace_metadata(Some(answer(None, &["first", "second"])));
    assert_eq!(first.selected_workspace_account_id, some("first"));

    let mut none = fresh();
    none.refresh_workspace_metadata(Some(answer(None, &[])));
    assert_eq!(none.selected_workspace_account_id, None);
    assert_eq!(bound(&none), Some("id"));
    assert_eq!(none.workspaces, vec![bare("acc")]);

    let mut silent = fresh();
    silent.refresh_workspace_metadata(None);
    assert_eq!(silent, fresh());

    let mut without = fresh();
    without.auth_json.tokens = None;
    without.refresh_workspace_metadata(Some(answer(Some("default"), &[])));
    assert_eq!(without.auth_json.tokens, None);
    assert_eq!(without.selected_workspace_account_id, some("default"));
}

#[test]
fn an_account_is_saved_once() {
    let mut list = stored(
        Some("b"),
        vec![
            session("a", Some("a@x"), Some("u1"), 1),
            session("b", Some("b@x"), Some("u2"), 2),
        ],
    );
    let change = list.add_session(session("new", Some("b@x"), Some("u1"), 9), false);
    assert_eq!(change, CredentialChange::Keep);
    assert_eq!(ids(&list), ["a", "b"]);
    assert_eq!(list.sessions[0].last_used_at, 9);
    assert_eq!(list.sessions[0].email, some("b@x"));
    assert_eq!(list.active_session_id, some("b"));

    let change = list.add_session(session("c", None, None, 10), true);
    assert_eq!(change, CredentialChange::Write(auth(Some("c"))));
    assert_eq!(ids(&list), ["a", "b", "c"]);
    assert_eq!(list.active_session_id, some("c"));

    list.add_session(session("d", None, None, 10), false);
    assert_eq!(ids(&list), ["a", "b", "c", "d"]);
}

#[test]
fn adding_twice_is_adding_once() {
    let mut once = stored(None, vec![session("a", Some("a@x"), None, 1)]);
    once.add_session(session("n", Some("n@x"), None, 5), true);
    let mut twice = once.clone();
    twice.add_session(session("n", Some("n@x"), None, 5), true);
    assert_eq!(once, twice);
}

#[test]
fn a_session_added_for_a_saved_account_keeps_the_saved_id() {
    let mut list = stored(None, vec![session("a", None, Some("u"), 1)]);
    let change = list.add_session(session("n", None, Some("u"), 5), true);
    assert_eq!(ids(&list), ["a"]);
    assert_eq!(list.active_session_id, some("a"));
    assert_eq!(change, CredentialChange::Write(auth(Some("n"))));
}

#[test]
fn removing_takes_the_session_with_the_id() {
    let mut list = stored(
        Some("a"),
        vec![
            session("a", None, None, 1),
            session("b", None, None, 2),
            session("c", None, None, 3),
        ],
    );
    let removed = list.remove_session(&"b".to_string()).unwrap();
    assert_eq!(removed.session_id, "b");
    assert_eq!(ids(&list), ["a", "c"]);
    assert_eq!(
        list.remove_session(&"b".to_string()),
        Err(SessionsError::SessionNotFound)
    );
    assert_eq!(ids(&list), ["a", "c"]);
}

#[test]
fn the_session_used_last_succeeds() {
    let rest = || {
        vec![
            session("a", None, None, 5),
            session("b", None, None, 7),
            session("c", None, None, 7),
            session("d", None, None, 6),
        ]
    };
    let mut list = stored(Some("gone"), rest());
    let change = list.succeed(&"gone".to_string());
    assert_eq!(list.active_session_id, some("c"));
    assert_eq!(change, CredentialChange::Write(auth(Some("c"))));

    let mut other = stored(Some("a"), rest());
    assert_eq!(other.succeed(&"gone".to_string()), CredentialChange::Keep);
    assert_eq!(other, stored(Some("a"), rest()));

    let mut empty = stored(Some("gone"), vec![]);
    assert_eq!(empty.succeed(&"gone".to_string()), CredentialChange::Clear);
    assert_eq!(empty.active_session_id, None);
}

#[test]
fn switching_binds_the_session_to_the_account() {
    let mut list = stored(
        Some("a"),
        vec![session("a", None, None, 1), session("b", None, None, 2)],
    );
    let used = list.switch_session(&"b".to_string(), &"acc".to_string(), 50);
    assert_eq!(used, Ok(auth(Some("acc"))));
    assert_eq!(list.active_session_id, some("b"));
    assert_eq!(list.sessions[1].auth_json, auth(Some("acc")));
    assert_eq!(
        list.sessions[1].selected_workspace_account_id,
        some("acc")
    );
    assert_eq!(list.sessions[1].last_used_at, 50);
    assert_eq!(list.sessions[0], session("a", None, None, 1));
}

#[test]
fn switching_can_be_refused() {
    let mut without = session("b", None, None, 2);
    without.auth_json.tokens = None;
    let mut list = stored(Some("a"), vec![session("a", None, None, 1), without]);
    let before = list.clone();
    assert_eq!(
        list.switch_session(&"x".to_string(), &"acc".to_string(), 50),
        Err(SessionsError::SessionNotFound)
    );
    assert_eq!(
        list.switch_session(&"b".to_string(), &"acc".to_string(), 50),
        Err(SessionsError::NoTokens)
    );
    assert_eq!(list, before);
    assert_eq!(
        list.switch_refusal(&"x".to_string()),
        Some(SessionsError::SessionNotFound)
    );
    assert_eq!(
        list.switch_refusal(&"b".to_string()),
        Some(SessionsError::NoTokens)
    );
    assert_eq!(list.switch_refusal(&"a".to_string()), None);
}

#[test]
fn sessions_are_shown_with_the_latest_first() {
    let list = stored(
        Some("c"),
        vec![
            session("a", Some("a@x"), None, 5),
            session("b", None, None, 7),
            session("c", None, Some("u"), 5),
            session("d", None, None, 9),
            session("e", None, None, -3),
        ],
    );
    let shown = response(list);
    let order: Vec<&str> = shown
        .sessions
        .iter()
        .map(|session| session.session_id.as_str())
        .collect();
    assert_eq!(order, ["d", "b", "a", "c", "e"]);
    let active: Vec<bool> = shown
        .sessions
        .iter()
        .map(|session| session.is_active)
        .collect();
    assert_eq!(active, [false, false, false, true, false]);
    assert_eq!(shown.active_session_id, some("c"));
    assert_eq!(shown.sessions[2].email, some("a@x"));
    assert_eq!(shown.sessions[3].user_id, some("u"));
}

#[test]
fn nothing_saved_shows_nothing() {
    let shown = response(StoredAccountSessions::default());
    assert_eq!(shown.active_session_id, None);
    assert!(shown.sessions.is_empty());
}

#[test]
fn a_session_is_shown_with_all_that_is_known() {
    let made = session_from_claims(auth(None), claims(), "id".to_string(), 7).unwrap();
    let shown = response(stored(None, vec![made]));
    let session = &shown.sessions[0];
    assert!(!session.is_active);
    assert_eq!(session.display_name, some("Ada"));
    assert_eq!(session.image_url, some("picture"));
    assert_eq!(session.plan, some("pro"));
    assert_eq!(session.last_used_at, 7);
    assert_eq!(session.selected_workspace_account_id, some("acc-claim"));
    assert_eq!(session.workspaces, vec![bare("acc-claim")]);
}
