//! Making a saved session out of a credential, and refreshing its workspaces.
use crate::accounts::types::{
    no_claims, AccessTokenClaims, AccountEntry, AccountEntryView, AccountSessionWorkspace,
    AccountSessionWorkspaceKind, AccountSessionWorkspaceStatus, AccountsCheck, AccountsView,
    AuthDotJson, AuthView, ClaimsView, SessionView, StoredAccountSession, TokenView, WorkspaceView,
};
use crate::base64url::{
    base64_url, decode, decoded, lemma_base64_url_has_no_dot, lemma_decoded_gives_back,
};
use crate::clock::unix_now;
use crate::ids::{is_v7_text, now_v7_text};
use crate::text::{clone_option, lemma_dot_from_is, second_dot_part, second_part};
use vstd::prelude::*;

verus! {

/// Why an operation on the saved sessions failed.
#[derive(Clone, Copy, Debug, PartialEq, Eq, Structural)]
pub enum SessionsError {
    /// There is no credential with tokens to make a session of.
    NoActiveAuth,
    /// No saved session has the id that was asked for.
    SessionNotFound,
    /// The session that was asked for has no tokens.
    NoTokens,
    /// What was read or written outside failed; that failure's own error is the answer.
    Io,
}

impl SessionsError {
    /// The words for the failures that are decided here.
    pub open spec fn words(self) -> Option<Seq<char>> {
        match self {
            SessionsError::NoActiveAuth => Some("No active ChatGPT auth session to add"@),
            SessionsError::SessionNotFound => Some("Saved ChatGPT account session not found"@),
            SessionsError::NoTokens => Some("Saved ChatGPT account session has no tokens"@),
            SessionsError::Io => None,
        }
    }

    /// The message of a failure that is decided here.
    pub fn message(&self) -> (res: Option<String>)
        ensures
            res.deep_view() == self.words(),
    {
        match self {
            SessionsError::NoActiveAuth => Some(
                "No active ChatGPT auth session to add".to_string(),
            ),
            SessionsError::SessionNotFound => Some(
                "Saved ChatGPT account session not found".to_string(),
            ),
            SessionsError::NoTokens => Some(
                "Saved ChatGPT account session has no tokens".to_string(),
            ),
            SessionsError::Io => None,
        }
    }
}

/// The first of two optional values that is there.
pub open spec fn or<A>(first: Option<A>, second: Option<A>) -> Option<A> {
    if first is Some {
        first
    } else {
        second
    }
}

/// The bytes of the claims that an access token carries: its second part, decoded.
pub open spec fn payload_of(access_token: Seq<char>) -> Option<Seq<u8>> {
    match second_part(access_token) {
        Some(part) => decoded(part),
        None => None,
    }
}

/// The bytes of the claims that an access token carries. There are none where the token has no
/// second part or where that part is not base64.
pub fn access_token_payload(access_token: &str) -> (res: Option<Vec<u8>>)
    ensures
        match res {
            Some(payload) => payload_of(access_token@) == Some(payload@),
            None => payload_of(access_token@) is None,
        },
{
    match second_dot_part(access_token) {
        Some(part) => decode(part),
        None => None,
    }
}

/// The claims that were read out of a payload, or no claims where none could be.
pub open spec fn claims_or_none(parsed: Option<ClaimsView>) -> ClaimsView {
    match parsed {
        Some(claims) => claims,
        None => no_claims(),
    }
}

/// The claims that were read out of an access token's payload, or no claims where there was no
/// payload or it could not be read.
pub fn access_token_claims(parsed: Option<AccessTokenClaims>) -> (res: AccessTokenClaims)
    ensures
        res@ == claims_or_none(parsed.deep_view()),
{
    match parsed {
        Some(claims) => claims,
        None => AccessTokenClaims::default(),
    }
}

/// A workspace of which only the account is known.
pub open spec fn bare_workspace(account_id: Seq<char>) -> WorkspaceView {
    WorkspaceView {
        account_id,
        name: None,
        image_url: None,
        kind: None,
        status: AccountSessionWorkspaceStatus::Active,
    }
}

/// The session that a credential with `tokens` gives.
pub open spec fn session_of(
    auth: AuthView,
    tokens: TokenView,
    claims: ClaimsView,
    session_id: Seq<char>,
    now: i64,
) -> SessionView {
    let selected = or(tokens.account_id, claims.account_id);
    SessionView {
        session_id,
        auth_json: auth,
        email: claims.email,
        user_id: claims.user_id,
        display_name: claims.name,
        image_url: or(claims.picture, claims.image),
        plan: claims.plan_type,
        last_used_at: now,
        selected_workspace_account_id: selected,
        workspaces: match selected {
            Some(account_id) => seq![bare_workspace(account_id)],
            None => Seq::empty(),
        },
    }
}

/// The session of the id and the time given that a credential and its claims make. Without
/// tokens there is none.
pub fn session_from_claims(
    auth_json: AuthDotJson,
    claims: AccessTokenClaims,
    session_id: String,
    now: i64,
) -> (res: Result<StoredAccountSession, SessionsError>)
    ensures
        match auth_json@.tokens {
            Some(tokens) => res matches Ok(session) && session@ == session_of(
                auth_json@,
                tokens,
                claims@,
                session_id@,
                now,
            ),
            None => res == Err::<StoredAccountSession, _>(SessionsError::NoActiveAuth),
        },
{
    let selected: Option<String> = match &auth_json.tokens {
        Some(tokens) => match &tokens.account_id {
            Some(account_id) => Some(account_id.clone()),
            None => clone_option(&claims.auth.chatgpt_account_id),
        },
        None => {
            return Err(SessionsError::NoActiveAuth);
        },
    };
    let mut workspaces: Vec<AccountSessionWorkspace> = Vec::new();
    if let Some(account_id) = &selected {
        workspaces.push(
            AccountSessionWorkspace {
                account_id: account_id.clone(),
                name: None,
                image_url: None,
                kind: None,
                status: AccountSessionWorkspaceStatus::Active,
            },
        );
        assert(workspaces.deep_view() =~= seq![bare_workspace(account_id@)]);
    } else {
        assert(workspaces.deep_view() =~= Seq::<WorkspaceView>::empty());
    }
    let image_url: Option<String> = match claims.profile.picture {
        Some(picture) => Some(picture),
        None => claims.profile.image,
    };
    Ok(
        StoredAccountSession {
            session_id,
            auth_json,
            email: claims.profile.email,
            user_id: claims.auth.chatgpt_user_id,
            display_name: claims.profile.name,
            image_url,
            plan: claims.auth.chatgpt_plan_type,
            last_used_at: now,
            selected_workspace_account_id: selected,
            workspaces,
        },
    )
}

/// The session that a credential and its claims make, with a fresh id and the current time.
/// Without tokens neither is asked for.
pub fn session_from_auth_json(auth_json: AuthDotJson, claims: AccessTokenClaims) -> (res: Result<
    StoredAccountSession,
    SessionsError,
>)
    ensures
        match auth_json@.tokens {
            Some(tokens) => res matches Ok(session) && is_v7_text(session@.session_id) && session@
                == session_of(
                auth_json@,
                tokens,
                claims@,
                session@.session_id,
                session@.last_used_at,
            ),
            None => res == Err::<StoredAccountSession, _>(SessionsError::NoActiveAuth),
        },
{
    if auth_json.tokens.is_none() {
        return Err(SessionsError::NoActiveAuth);
    }
    session_from_claims(auth_json, claims, now_v7_text(), unix_now())
}

/// The workspace that an account of the backend is.
pub open spec fn workspace_of(account: AccountEntryView) -> WorkspaceView {
    WorkspaceView {
        account_id: account.id,
        name: account.name,
        image_url: account.profile_picture_url,
        kind: if account.structure == "personal"@ {
            Some(AccountSessionWorkspaceKind::Personal)
        } else if account.structure == "workspace"@ {
            Some(AccountSessionWorkspaceKind::Workspace)
        } else {
            None
        },
        status: AccountSessionWorkspaceStatus::Active,
    }
}

/// The workspace that an account of the backend is.
pub fn workspace_from_account(account: AccountEntry) -> (res: AccountSessionWorkspace)
    ensures
        res@ == workspace_of(account@),
{
    let kind: Option<AccountSessionWorkspaceKind> = if account.structure == "personal".to_string() {
        Some(AccountSessionWorkspaceKind::Personal)
    } else if account.structure == "workspace".to_string() {
        Some(AccountSessionWorkspaceKind::Workspace)
    } else {
        None
    };
    AccountSessionWorkspace {
        account_id: account.id,
        name: account.name,
        image_url: account.profile_picture_url,
        kind,
        status: AccountSessionWorkspaceStatus::Active,
    }
}

/// The account that a session works in once the backend has answered: the one it had, else the
/// default one, else the first one listed.
pub open spec fn selected_account(session: SessionView, accounts: AccountsView) -> Option<
    Seq<char>,
> {
    or(
        session.selected_workspace_account_id,
        or(
            accounts.default_account_id,
            if accounts.account_ordering.len() > 0 {
                Some(accounts.account_ordering[0])
            } else {
                None
            },
        ),
    )
}

/// `auth` with its tokens bound to an account, where both are there.
pub open spec fn bound_to(auth: AuthView, account_id: Option<Seq<char>>) -> AuthView {
    match (auth.tokens, account_id) {
        (Some(tokens), Some(_)) => AuthView {
            tokens: Some(TokenView { account_id, ..tokens }),
            ..auth
        },
        _ => auth,
    }
}

/// `session` once the backend has answered which accounts its credential has.
pub open spec fn refreshed(session: SessionView, answer: Option<AccountsView>) -> SessionView {
    match answer {
        None => session,
        Some(accounts) => SessionView {
            selected_workspace_account_id: selected_account(session, accounts),
            auth_json: bound_to(session.auth_json, selected_account(session, accounts)),
            workspaces: accounts.accounts.map_values(|account| workspace_of(account)),
            ..session
        },
    }
}

/// The workspaces that the accounts of the backend are, in their order.
fn workspaces_from_accounts(accounts: Vec<AccountEntry>) -> (res: Vec<AccountSessionWorkspace>)
    ensures
        res.deep_view() == accounts.deep_view().map_values(|account| workspace_of(account)),
{
    let mut res: Vec<AccountSessionWorkspace> = Vec::new();
    for account in iter: accounts
        invariant
            iter.seq() == accounts@,
            res@.len() == iter.index(),
            forall|i: int| 0 <= i < res@.len() ==> #[trigger] res@[i]@ == workspace_of(accounts@[i]@),
    {
        res.push(workspace_from_account(account));
    }
    assert(res.deep_view() =~= accounts.deep_view().map_values(|account| workspace_of(account)));
    res
}

impl StoredAccountSession {
    /// Takes in the backend's answer to which accounts the credential has. Without an answer
    /// the session stays as it is.
    pub fn refresh_workspace_metadata(&mut self, answer: Option<AccountsCheck>)
        ensures
            final(self)@ == refreshed(old(self)@, answer.deep_view()),
    {
        if let Some(accounts) = answer {
            if self.selected_workspace_account_id.is_none() {
                self.selected_workspace_account_id = match accounts.default_account_id {
                    Some(account_id) => Some(account_id),
                    None => if accounts.account_ordering.len() > 0 {
                        Some(accounts.account_ordering[0].clone())
                    } else {
                        None
                    },
                };
            }
            let selected: Option<String> = clone_option(&self.selected_workspace_account_id);
            if selected.is_some() {
                if let Some(tokens) = &mut self.auth_json.tokens {
                    tokens.account_id = selected;
                }
            }
            self.workspaces = workspaces_from_accounts(accounts.accounts);
        }
    }
}

/// A token of dot-separated parts, of which the second is the base64 of some bytes, carries
/// those bytes.
pub proof fn law_payload_is_read_back(header: Seq<char>, payload: Seq<u8>, signature: Seq<char>)
    requires
        !header.contains('.'),
    ensures
        payload_of(header + seq!['.'] + base64_url(payload) + seq!['.'] + signature) == Some(
            payload,
        ),
        payload_of(header + seq!['.'] + base64_url(payload)) == Some(payload),
{
    let part = base64_url(payload);
    let signed = header + seq!['.'] + part + seq!['.'] + signature;
    let bare = header + seq!['.'] + part;
    let n = header.len() as int;
    let m = n + 1 + part.len();
    lemma_base64_url_has_no_dot(payload);
    assert forall|i: int| 0 <= i < n implies #[trigger] signed[i] != '.' && bare[i] != '.' by {
        assert(header.contains(header[i]));
        assert(signed[i] == header[i]);
        assert(bare[i] == header[i]);
    }
    assert forall|i: int| n < i < m implies #[trigger] signed[i] != '.' && bare[i] != '.' by {
        assert(signed[i] == part[i - n - 1]);
        assert(bare[i] == part[i - n - 1]);
    }
    assert(signed[n] == '.' && bare[n] == '.');
    assert(signed[m] == '.');
    lemma_dot_from_is(signed, 0, n);
    lemma_dot_from_is(signed, n + 1, m);
    lemma_dot_from_is(bare, 0, n);
    lemma_dot_from_is(bare, n + 1, m);
    assert(signed.subrange(n + 1, m) =~= part);
    assert(bare.subrange(n + 1, m) =~= part);
    lemma_decoded_gives_back(payload);
}

/// A token without a dot carries nothing.
pub proof fn law_token_without_parts_carries_nothing(token: Seq<char>)
    requires
        !token.contains('.'),
    ensures
        payload_of(token) is None,
{
    assert forall|i: int| 0 <= i < token.len() implies #[trigger] token[i] != '.' by {
        assert(token.contains(token[i]));
    }
    lemma_dot_from_is(token, 0, token.len() as int);
}

} // verus!
