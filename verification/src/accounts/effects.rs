//! What becomes of each part of a session and of the list, in terms of what was there before.
use crate::accounts::laws::{law_someone_is_newest, lemma_account_from, lemma_id_from};
use crate::accounts::operation::imported;
use crate::accounts::response::{
    latest_first, lemma_latest_first_is_ordered, lemma_used_since_bounds, response_of, shown,
    used_since,
};
use crate::accounts::session::{
    claims_or_none, payload_of, refreshed, session_of, workspace_of, SessionsError,
};
use crate::accounts::store::{account_from, id_from, newest, same_account, CredentialView};
use crate::accounts::types::{
    AccountEntryView, AccountSessionView, AccountSessionWorkspace, AccountSessionWorkspaceKind,
    AccountSessionWorkspaceStatus, AccountsView, AuthDotJson, AuthView, ClaimsView, SessionView,
    StoredAccountSession, StoredView, TokenView, WorkspaceView,
};
use crate::base64url::{base64_url, decoded};
use crate::text::law_second_part_stands_between_dots;
use vstd::prelude::*;

verus! {

/// Whether the sessions share an email or a user id that is there.
pub open spec fn shares_identity(session: SessionView, saved: SessionView) -> bool {
    ||| session.email is Some && saved.email is Some && session.email->0 == saved.email->0
    ||| session.user_id is Some && saved.user_id is Some && session.user_id->0 == saved.user_id->0
}

/// Whose a session is, is what its access token claims: email, user, name, plan and picture (or
/// else image) are the claimed ones. The credential is kept as it is, and the id and the time are
/// the ones given.
pub proof fn law_session_is_whose_its_token_says(
    auth: AuthView,
    tokens: TokenView,
    claims: ClaimsView,
    session_id: Seq<char>,
    now: i64,
)
    ensures
        ({
            let made = session_of(auth, tokens, claims, session_id, now);
            &&& made.email == claims.email
            &&& made.user_id == claims.user_id
            &&& made.display_name == claims.name
            &&& made.plan == claims.plan_type
            &&& claims.picture is Some ==> made.image_url == claims.picture
            &&& claims.picture is None ==> made.image_url == claims.image
            &&& made.auth_json == auth
            &&& made.session_id == session_id
            &&& made.last_used_at == now
        }),
{
}

/// Whose a session is does not depend on the account that its tokens are bound to: credentials
/// that differ in it alone make sessions that differ in the credential, the workspace that they
/// work in and their workspaces alone.
pub proof fn law_identity_is_not_the_workspace(
    auth: AuthView,
    tokens: TokenView,
    account_id: Option<Seq<char>>,
    claims: ClaimsView,
    session_id: Seq<char>,
    now: i64,
)
    ensures
        ({
            let moved = TokenView { account_id, ..tokens };
            let one = session_of(auth, tokens, claims, session_id, now);
            let other = session_of(
                AuthView { tokens: Some(moved), ..auth },
                moved,
                claims,
                session_id,
                now,
            );
            other == SessionView {
                auth_json: other.auth_json,
                selected_workspace_account_id: other.selected_workspace_account_id,
                workspaces: other.workspaces,
                ..one
            }
        }),
{
}

/// A session begins in the workspace of the account that its tokens are bound to, or else of the
/// one that its token claims; that workspace is all that it has, and nothing but the account is
/// known of it. Without either it has none.
pub proof fn law_session_begins_in_one_workspace(
    auth: AuthView,
    tokens: TokenView,
    claims: ClaimsView,
    session_id: Seq<char>,
    now: i64,
)
    ensures
        ({
            let made = session_of(auth, tokens, claims, session_id, now);
            &&& tokens.account_id is Some ==> made.selected_workspace_account_id
                == tokens.account_id
            &&& tokens.account_id is None ==> made.selected_workspace_account_id
                == claims.account_id
            &&& match made.selected_workspace_account_id {
                Some(account_id) => {
                    &&& made.workspaces.len() == 1
                    &&& made.workspaces[0].account_id == account_id
                    &&& made.workspaces[0].name is None
                    &&& made.workspaces[0].image_url is None
                    &&& made.workspaces[0].kind is None
                    &&& made.workspaces[0].status == AccountSessionWorkspaceStatus::Active
                },
                None => made.workspaces.len() == 0,
            }
        }),
{
}

/// Claims that were read are used as they are; where none could be read, every one is absent.
pub proof fn law_unread_claims_say_nothing(claims: ClaimsView)
    ensures
        claims_or_none(Some(claims)) == claims,
        claims_or_none(None).account_id is None,
        claims_or_none(None).plan_type is None,
        claims_or_none(None).user_id is None,
        claims_or_none(None).email is None,
        claims_or_none(None).image is None,
        claims_or_none(None).name is None,
        claims_or_none(None).picture is None,
{
}

/// A token carries bytes exactly where its second part, up to the next dot or the end, is their
/// encoding.
pub proof fn law_payload_is_the_second_part(
    header: Seq<char>,
    part: Seq<char>,
    signature: Seq<char>,
    payload: Seq<u8>,
)
    requires
        !header.contains('.'),
        !part.contains('.'),
    ensures
        payload_of(header + seq!['.'] + part) == Some(payload) ==> base64_url(payload) == part,
        payload_of(header + seq!['.'] + part + seq!['.'] + signature) == payload_of(
            header + seq!['.'] + part,
        ),
        payload_of(header + seq!['.'] + part) is None ==> base64_url(payload) != part,
{
    law_second_part_stands_between_dots(header, part, signature);
    assert(decoded(part) is None ==> base64_url(payload) != part);
}

/// A workspace has the id, the name and the picture of its account. It is personal or shared
/// exactly where the account is said to be `personal` or `workspace`.
pub proof fn law_workspace_is_its_account(account: AccountEntryView)
    ensures
        ({
            let workspace = workspace_of(account);
            &&& workspace.account_id == account.id
            &&& workspace.name == account.name
            &&& workspace.image_url == account.profile_picture_url
            &&& workspace.kind == Some(AccountSessionWorkspaceKind::Personal)
                <==> account.structure == "personal"@
            &&& workspace.kind == Some(AccountSessionWorkspaceKind::Workspace)
                <==> account.structure == "workspace"@
            &&& workspace.status == AccountSessionWorkspaceStatus::Active
        }),
{
    reveal_strlit("personal");
    reveal_strlit("workspace");
    assert("personal"@.len() != "workspace"@.len());
}

/// Once the backend has answered, a session has exactly the workspaces of the answer, in its
/// order, whatever it had before.
pub proof fn law_refresh_takes_the_workspaces_of_the_answer(
    session: SessionView,
    accounts: AccountsView,
)
    ensures
        ({
            let after = refreshed(session, Some(accounts));
            &&& after.workspaces.len() == accounts.accounts.len()
            &&& forall|i: int|
                0 <= i < accounts.accounts.len() ==> {
                    let workspace = #[trigger] after.workspaces[i];
                    let account = accounts.accounts[i];
                    &&& workspace.account_id == account.id
                    &&& workspace.name == account.name
                    &&& workspace.image_url == account.profile_picture_url
                    &&& workspace.kind == Some(AccountSessionWorkspaceKind::Personal)
                        <==> account.structure == "personal"@
                    &&& workspace.kind == Some(AccountSessionWorkspaceKind::Workspace)
                        <==> account.structure == "workspace"@
                    &&& workspace.status == AccountSessionWorkspaceStatus::Active
                }
        }),
{
    let after = refreshed(session, Some(accounts));
    assert forall|i: int| 0 <= i < accounts.accounts.len() implies {
        let workspace = #[trigger] after.workspaces[i];
        let account = accounts.accounts[i];
        &&& workspace.account_id == account.id
        &&& workspace.name == account.name
        &&& workspace.image_url == account.profile_picture_url
        &&& workspace.kind == Some(AccountSessionWorkspaceKind::Personal) <==> account.structure
            == "personal"@
        &&& workspace.kind == Some(AccountSessionWorkspaceKind::Workspace) <==> account.structure
            == "workspace"@
        &&& workspace.status == AccountSessionWorkspaceStatus::Active
    } by {
        law_workspace_is_its_account(accounts.accounts[i]);
    }
}

/// The workspaces after an answer do not depend on those before.
pub proof fn law_old_workspaces_do_not_matter(
    session: SessionView,
    workspaces: Seq<WorkspaceView>,
    accounts: AccountsView,
)
    ensures
        refreshed(SessionView { workspaces, ..session }, Some(accounts)) == refreshed(
            session,
            Some(accounts),
        ),
{
}

/// Once the backend has answered, a session works where it did; if nowhere, in the default
/// account; if there is none, in the first one listed; if none is listed, nowhere. Its tokens, if
/// it has any, are bound to that account, if there is one. Nothing else of the session changes but
/// its workspaces, and nothing else of the credential.
pub proof fn law_refresh_selects_and_binds(session: SessionView, accounts: AccountsView)
    ensures
        ({
            let after = refreshed(session, Some(accounts));
            let was = session.selected_workspace_account_id;
            let selected = after.selected_workspace_account_id;
            &&& was is Some ==> selected == was
            &&& was is None && accounts.default_account_id is Some ==> selected
                == accounts.default_account_id
            &&& was is None && accounts.default_account_id is None
                && accounts.account_ordering.len() > 0 ==> selected == Some(
                accounts.account_ordering[0],
            )
            &&& was is None && accounts.default_account_id is None
                && accounts.account_ordering.len() == 0 ==> selected is None
            &&& after.auth_json.rest == session.auth_json.rest
            &&& after.auth_json.tokens is Some <==> session.auth_json.tokens is Some
            &&& session.auth_json.tokens matches Some(tokens) ==> {
                &&& after.auth_json.tokens->0.access_token == tokens.access_token
                &&& after.auth_json.tokens->0.rest == tokens.rest
                &&& after.auth_json.tokens->0.account_id == if selected is Some {
                    selected
                } else {
                    tokens.account_id
                }
            }
            &&& after.session_id == session.session_id
            &&& after.email == session.email
            &&& after.user_id == session.user_id
            &&& after.display_name == session.display_name
            &&& after.image_url == session.image_url
            &&& after.plan == session.plan
            &&& after.last_used_at == session.last_used_at
        }),
{
}

/// Without an answer a session stays as it is; the same answer a second time changes nothing.
pub proof fn law_refresh_settles(session: SessionView, accounts: AccountsView)
    ensures
        refreshed(session, None) == session,
        refreshed(refreshed(session, Some(accounts)), Some(accounts)) == refreshed(
            session,
            Some(accounts),
        ),
{
}

/// A session of an account that no saved session shares an email or a user id with is added at
/// the end as it was given; the saved ones stay.
pub proof fn law_new_account_is_added_at_the_end(
    stored: StoredView,
    session: SessionView,
    switch: bool,
)
    requires
        forall|i: int|
            0 <= i < stored.sessions.len() ==> !shares_identity(
                session,
                #[trigger] stored.sessions[i],
            ),
    ensures
        ({
            let after = stored.with_added(session, switch);
            let n = stored.sessions.len() as int;
            &&& after.sessions.len() == n + 1
            &&& after.sessions.take(n) == stored.sessions
            &&& after.sessions[n] == session
            &&& after.active_session_id == if switch {
                Some(session.session_id)
            } else {
                stored.active_session_id
            }
        }),
{
    lemma_account_from(stored.sessions, session, 0);
    let at = account_from(stored.sessions, session, 0);
    if at < stored.sessions.len() {
        let saved = stored.sessions[at];
        lemma_shares_identity(session, saved);
        assert(!shares_identity(session, saved));
    }
    assert(stored.with_added(session, switch).sessions.take(stored.sessions.len() as int)
        =~= stored.sessions);
}

/// A session of an account that is saved already takes the place of the first saved session that
/// it shares an email or a user id with. It is saved as it was given in every part but its id,
/// which is the saved one's; the other saved sessions stay.
pub proof fn law_saved_account_is_replaced(
    stored: StoredView,
    session: SessionView,
    switch: bool,
    at: int,
)
    requires
        0 <= at < stored.sessions.len(),
        shares_identity(session, stored.sessions[at]),
        forall|i: int| 0 <= i < at ==> !shares_identity(session, #[trigger] stored.sessions[i]),
    ensures
        ({
            let after = stored.with_added(session, switch);
            let added = after.sessions[at];
            &&& after.sessions.len() == stored.sessions.len()
            &&& added.session_id == stored.sessions[at].session_id
            &&& added.auth_json == session.auth_json
            &&& added.email == session.email
            &&& added.user_id == session.user_id
            &&& added.display_name == session.display_name
            &&& added.image_url == session.image_url
            &&& added.plan == session.plan
            &&& added.last_used_at == session.last_used_at
            &&& added.selected_workspace_account_id == session.selected_workspace_account_id
            &&& added.workspaces == session.workspaces
            &&& forall|i: int|
                0 <= i < stored.sessions.len() && i != at ==> #[trigger] after.sessions[i]
                    == stored.sessions[i]
            &&& after.active_session_id == if switch {
                Some(stored.sessions[at].session_id)
            } else {
                stored.active_session_id
            }
        }),
{
    lemma_account_from(stored.sessions, session, 0);
    let found = account_from(stored.sessions, session, 0);
    lemma_shares_identity(session, stored.sessions[at]);
    if found < at {
        lemma_shares_identity(session, stored.sessions[found]);
        assert(!shares_identity(session, stored.sessions[found]));
    }
    assert(found == at);
}

/// Sharing an identity is what tells accounts apart.
proof fn lemma_shares_identity(session: SessionView, saved: SessionView)
    ensures
        shares_identity(session, saved) <==> same_account(session, saved),
{
}

/// A session with an id is saved exactly where one in the list has the id; it is the first that
/// has it.
pub proof fn law_session_is_found_by_its_id(stored: StoredView, session_id: Seq<char>)
    ensures
        stored.has(session_id) <==> exists|i: int|
            0 <= i < stored.sessions.len() && #[trigger] stored.sessions[i].session_id
                == session_id,
        forall|at: int|
            0 <= at < stored.sessions.len() && #[trigger] stored.sessions[at].session_id
                == session_id && (forall|i: int|
                0 <= i < at ==> #[trigger] stored.sessions[i].session_id != session_id)
                ==> stored.session(session_id) == stored.sessions[at],
{
    lemma_id_from(stored.sessions, session_id, 0);
    let found = id_from(stored.sessions, session_id, 0);
    assert forall|at: int|
        0 <= at < stored.sessions.len() && #[trigger] stored.sessions[at].session_id == session_id
            && (forall|i: int|
            0 <= i < at ==> #[trigger] stored.sessions[i].session_id
                != session_id) implies stored.session(session_id) == stored.sessions[at] by {
        if found < at {
            assert(stored.sessions[found].session_id != session_id);
        }
        if at < found {
            assert(stored.sessions[at].session_id != session_id);
        }
    }
}

/// Logging out takes the first session with the id out of the list, and leaves the sessions
/// before and behind it as they are and in their order.
pub proof fn law_logout_keeps_the_others(stored: StoredView, session_id: Seq<char>, at: int)
    requires
        0 <= at < stored.sessions.len(),
        stored.sessions[at].session_id == session_id,
        forall|i: int| 0 <= i < at ==> #[trigger] stored.sessions[i].session_id != session_id,
    ensures
        ({
            let rest = stored.without(session_id);
            let n = stored.sessions.len() as int;
            &&& rest.sessions == stored.sessions.take(at) + stored.sessions.skip(at + 1)
            &&& rest.sessions.len() == n - 1
            &&& rest.with_successor(session_id).sessions == rest.sessions
            &&& rest.active_session_id == stored.active_session_id
        }),
{
    lemma_id_from(stored.sessions, session_id, 0);
    let found = id_from(stored.sessions, session_id, 0);
    if found < at {
        assert(stored.sessions[found].session_id != session_id);
    }
    assert(found == at);
    assert(stored.without(session_id).sessions =~= stored.sessions.take(at)
        + stored.sessions.skip(at + 1));
}

/// The session that takes over when the one in use has gone is a saved one that none was used
/// later than, and that stands last among those used when it was. It is put in use, and so is its
/// credential. Where none is left, none is in use and the credential is taken away.
pub proof fn law_latest_session_takes_over(rest: StoredView, session_id: Seq<char>) -> (at: int)
    requires
        rest.active_session_id == Some(session_id),
    ensures
        rest.sessions.len() > 0 ==> {
            &&& 0 <= at < rest.sessions.len()
            &&& forall|i: int|
                0 <= i < rest.sessions.len() ==> #[trigger] rest.sessions[i].last_used_at
                    <= rest.sessions[at].last_used_at
            &&& forall|i: int|
                at < i < rest.sessions.len() ==> #[trigger] rest.sessions[i].last_used_at
                    != rest.sessions[at].last_used_at
            &&& rest.with_successor(session_id).active_session_id == Some(
                rest.sessions[at].session_id,
            )
            &&& rest.successor_credential(session_id) == CredentialView::Write(
                rest.sessions[at].auth_json,
            )
        },
        rest.sessions.len() == 0 ==> {
            &&& rest.with_successor(session_id).active_session_id is None
            &&& rest.successor_credential(session_id) == CredentialView::Clear
        },
        rest.with_successor(session_id).sessions == rest.sessions,
{
    if rest.sessions.len() > 0 {
        law_someone_is_newest(rest.sessions);
        let at = newest(rest.sessions);
        assert forall|i: int| at < i < rest.sessions.len() implies #[trigger] rest.sessions[i].last_used_at
            != rest.sessions[at].last_used_at by {
            assert(rest.sessions[i].last_used_at < rest.sessions[at].last_used_at);
        }
        at
    } else {
        0
    }
}

/// When a session goes that is not in use, the list and the credential stay.
pub proof fn law_no_one_takes_over_from_another(rest: StoredView, session_id: Seq<char>)
    requires
        rest.active_session_id != Some(session_id),
    ensures
        rest.with_successor(session_id) == rest,
        rest.successor_credential(session_id) == CredentialView::Keep,
{
}

/// Switching changes of the first session with the id nothing but the account of its tokens, the
/// workspace that it works in and the time of its last use; the other sessions stay, and the
/// session is in use.
pub proof fn law_switch_keeps_the_rest(
    stored: StoredView,
    session_id: Seq<char>,
    account_id: Seq<char>,
    now: i64,
    at: int,
)
    requires
        0 <= at < stored.sessions.len(),
        stored.sessions[at].session_id == session_id,
        forall|i: int| 0 <= i < at ==> #[trigger] stored.sessions[i].session_id != session_id,
    ensures
        ({
            let after = stored.switched(session_id, account_id, now);
            let was = stored.sessions[at];
            let is = after.sessions[at];
            &&& after.active_session_id == Some(session_id)
            &&& after.sessions.len() == stored.sessions.len()
            &&& forall|i: int|
                0 <= i < stored.sessions.len() && i != at ==> #[trigger] after.sessions[i]
                    == stored.sessions[i]
            &&& is.session_id == was.session_id
            &&& is.email == was.email
            &&& is.user_id == was.user_id
            &&& is.display_name == was.display_name
            &&& is.image_url == was.image_url
            &&& is.plan == was.plan
            &&& is.workspaces == was.workspaces
            &&& is.last_used_at == now
            &&& is.selected_workspace_account_id == Some(account_id)
            &&& is.auth_json.rest == was.auth_json.rest
            &&& was.auth_json.tokens is None ==> is.auth_json.tokens is None
            &&& was.auth_json.tokens matches Some(tokens) ==> is.auth_json.tokens == Some(
                TokenView {
                    access_token: tokens.access_token,
                    account_id: Some(account_id),
                    rest: tokens.rest,
                },
            )
        }),
{
    lemma_id_from(stored.sessions, session_id, 0);
    let found = id_from(stored.sessions, session_id, 0);
    if found < at {
        assert(stored.sessions[found].session_id != session_id);
    }
    assert(found == at);
}

/// Switching to another workspace and back differs from staying in the time of last use alone.
pub proof fn law_switch_is_undone_by_switching_back(
    stored: StoredView,
    session_id: Seq<char>,
    account_id: Seq<char>,
    other: Seq<char>,
    now: i64,
    later: i64,
)
    requires
        stored.has(session_id),
    ensures
        stored.switched(session_id, other, now).switched(session_id, account_id, later)
            == stored.switched(session_id, account_id, later),
{
    lemma_id_from(stored.sessions, session_id, 0);
    let at = id_from(stored.sessions, session_id, 0);
    let once = stored.switched(session_id, other, now);
    lemma_id_from(once.sessions, session_id, 0);
    let found = id_from(once.sessions, session_id, 0);
    assert(once.sessions[at].session_id == session_id);
    if found < at {
        assert(once.sessions[found] == stored.sessions[found]);
    }
    assert(found == at);
    assert(once.switched(session_id, account_id, later).sessions =~= stored.switched(
        session_id,
        account_id,
        later,
    ).sessions);
}

/// A session can be switched to exactly where one with the id is saved and the first one has
/// tokens.
pub proof fn law_switch_is_refused(stored: StoredView, session_id: Seq<char>)
    ensures
        (forall|i: int|
            0 <= i < stored.sessions.len() ==> #[trigger] stored.sessions[i].session_id
                != session_id) ==> stored.switch_refusal(session_id) == Some(
            SessionsError::SessionNotFound,
        ),
        forall|at: int|
            0 <= at < stored.sessions.len() && #[trigger] stored.sessions[at].session_id
                == session_id && (forall|i: int|
                0 <= i < at ==> #[trigger] stored.sessions[i].session_id != session_id)
                ==> stored.switch_refusal(session_id) == if stored.sessions[at].auth_json.tokens
                is Some {
                None::<SessionsError>
            } else {
                Some(SessionsError::NoTokens)
            },
{
    lemma_id_from(stored.sessions, session_id, 0);
    law_session_is_found_by_its_id(stored, session_id);
}

/// The first list has the session as it was made, alone and in use.
pub proof fn law_first_list_is_one_session(session: SessionView)
    ensures
        imported(session).sessions.len() == 1,
        imported(session).sessions[0] == session,
        imported(session).active_session_id == Some(session.session_id),
{
}

/// A saved session is shown with all that is known of it but its credential.
pub open spec fn is_shown(
    session: SessionView,
    active: Option<Seq<char>>,
    seen: AccountSessionView,
) -> bool {
    &&& seen.session_id == session.session_id
    &&& seen.email == session.email
    &&& seen.user_id == session.user_id
    &&& seen.display_name == session.display_name
    &&& seen.image_url == session.image_url
    &&& seen.plan == session.plan
    &&& seen.last_used_at == session.last_used_at
    &&& seen.selected_workspace_account_id == session.selected_workspace_account_id
    &&& seen.workspaces == session.workspaces
    &&& seen.is_active <==> active == Some(session.session_id)
}

/// The sessions shown are the saved ones, each once and with all that is known of it but its
/// credential. One used later stands before one used earlier, and of two used at one time the one
/// that is saved first stands first.
///
/// `places` says where each saved session stands.
pub proof fn law_every_session_is_shown_in_order(stored: StoredView) -> (places: Seq<int>)
    ensures
        response_of(stored).active_session_id == stored.active_session_id,
        response_of(stored).sessions.len() == stored.sessions.len(),
        places.len() == stored.sessions.len(),
        forall|i: int|
            0 <= i < places.len() ==> {
                &&& 0 <= #[trigger] places[i] < places.len()
                &&& is_shown(
                    stored.sessions[i],
                    stored.active_session_id,
                    response_of(stored).sessions[places[i]],
                )
            },
        forall|i: int, j: int|
            0 <= i < j < places.len() ==> {
                let a = stored.sessions[i].last_used_at;
                let b = stored.sessions[j].last_used_at;
                &&& a >= b ==> #[trigger] places[i] < #[trigger] places[j]
                &&& a < b ==> places[j] < places[i]
            },
{
    let all = stored.sessions.map_values(
        |session: SessionView| shown(session, stored.active_session_id),
    );
    let places = lemma_places(all);
    assert forall|i: int| 0 <= i < places.len() implies {
        &&& 0 <= #[trigger] places[i] < places.len()
        &&& is_shown(
            stored.sessions[i],
            stored.active_session_id,
            response_of(stored).sessions[places[i]],
        )
    } by {
        assert(latest_first(all)[places[i]] == all[i]);
    }
    assert forall|i: int, j: int| 0 <= i < j < places.len() implies {
        let a = stored.sessions[i].last_used_at;
        let b = stored.sessions[j].last_used_at;
        &&& a >= b ==> #[trigger] places[i] < #[trigger] places[j]
        &&& a < b ==> places[j] < places[i]
    } by {
        assert(all[i].last_used_at == stored.sessions[i].last_used_at);
        assert(all[j].last_used_at == stored.sessions[j].last_used_at);
    }
    places
}

/// Where each session stands once they are in order.
proof fn lemma_places(all: Seq<AccountSessionView>) -> (places: Seq<int>)
    ensures
        latest_first(all).len() == all.len(),
        places.len() == all.len(),
        forall|i: int|
            0 <= i < places.len() ==> {
                &&& 0 <= #[trigger] places[i] < places.len()
                &&& latest_first(all)[places[i]] == all[i]
            },
        forall|i: int, j: int|
            0 <= i < j < places.len() ==> {
                &&& all[i].last_used_at >= all[j].last_used_at ==> #[trigger] places[i]
                    < #[trigger] places[j]
                &&& all[i].last_used_at < all[j].last_used_at ==> places[j] < places[i]
            },
    decreases all.len(),
{
    if all.len() == 0 {
        Seq::empty()
    } else {
        let front = all.drop_last();
        let before = lemma_places(front);
        let order = latest_first(front);
        let at = used_since(order, all.last().last_used_at);
        lemma_used_since_bounds(order, all.last().last_used_at);
        lemma_latest_first_is_ordered(front);
        let n = front.len() as int;
        let places = Seq::new(
            n as nat,
            |i: int|
                if before[i] < at {
                    before[i]
                } else {
                    before[i] + 1
                },
        ).push(at);
        let after = latest_first(all);
        assert(after == order.insert(at, all.last()));
        assert forall|i: int| 0 <= i < places.len() implies {
            &&& 0 <= #[trigger] places[i] < places.len()
            &&& after[places[i]] == all[i]
        } by {
            if i < n {
                assert(0 <= before[i] < before.len());
                assert(front[i] == all[i]);
            }
        }
        assert forall|i: int, j: int| 0 <= i < j < places.len() implies {
            &&& all[i].last_used_at >= all[j].last_used_at ==> #[trigger] places[i]
                < #[trigger] places[j]
            &&& all[i].last_used_at < all[j].last_used_at ==> places[j] < places[i]
        } by {
            assert(front[i] == all[i]);
            assert(order[before[i]] == front[i]);
            if j < n {
                assert(front[j] == all[j]);
                assert(before[i] < before[j] || before[j] < before[i]);
            } else {
                if all[i].last_used_at >= all[j].last_used_at {
                    if before[i] >= at {
                        assert(order[at].last_used_at < all.last().last_used_at);
                        if before[i] > at {
                            assert(order[at].last_used_at >= order[before[i]].last_used_at);
                        }
                    }
                } else if before[i] < at {
                    assert(order[before[i]].last_used_at >= all.last().last_used_at);
                }
            }
        }
        places
    }
}

/// Workspaces that look alike are alike in every part.
pub proof fn law_workspace_shows_every_part(a: AccountSessionWorkspace, b: AccountSessionWorkspace)
    requires
        a.deep_view() == b.deep_view(),
    ensures
        a.account_id@ == b.account_id@,
        a.name.deep_view() == b.name.deep_view(),
        a.image_url.deep_view() == b.image_url.deep_view(),
        a.kind == b.kind,
        a.status == b.status,
{
}

/// Credentials that look alike are alike in every part, what is only carried included.
pub proof fn law_credential_shows_every_part(a: AuthDotJson, b: AuthDotJson)
    requires
        a@ == b@,
    ensures
        a.rest@ == b.rest@,
        a.tokens is Some <==> b.tokens is Some,
        a.tokens matches Some(tokens) ==> {
            &&& tokens.access_token@ == b.tokens->0.access_token@
            &&& tokens.account_id.deep_view() == b.tokens->0.account_id.deep_view()
            &&& tokens.rest@ == b.tokens->0.rest@
        },
{
}

/// Sessions that look alike are alike in every part.
pub proof fn law_session_shows_every_part(a: StoredAccountSession, b: StoredAccountSession)
    requires
        a.deep_view() == b.deep_view(),
    ensures
        a.session_id@ == b.session_id@,
        a.auth_json@ == b.auth_json@,
        a.email.deep_view() == b.email.deep_view(),
        a.user_id.deep_view() == b.user_id.deep_view(),
        a.display_name.deep_view() == b.display_name.deep_view(),
        a.image_url.deep_view() == b.image_url.deep_view(),
        a.plan.deep_view() == b.plan.deep_view(),
        a.last_used_at == b.last_used_at,
        a.selected_workspace_account_id.deep_view() == b.selected_workspace_account_id.deep_view(),
        a.workspaces.deep_view() == b.workspaces.deep_view(),
{
}

} // verus!
