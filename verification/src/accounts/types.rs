//! What is saved of an account session, what is read to make one, and what is shown of it.
//!
//! Each type has a view, in which a text is a sequence of characters and a vector is a
//! sequence of views.
use crate::text::clone_option;
use vstd::prelude::*;

verus! {

/// Whether a workspace is one person's or shared.
#[derive(Clone, Copy, Debug, PartialEq, Eq, Structural)]
pub enum AccountSessionWorkspaceKind {
    Personal,
    Workspace,
}

/// Whether a workspace can be used.
#[derive(Clone, Copy, Debug, PartialEq, Eq, Structural)]
pub enum AccountSessionWorkspaceStatus {
    Active,
}

/// A workspace that a session can work in.
#[derive(Debug, PartialEq, Eq)]
pub struct AccountSessionWorkspace {
    pub account_id: String,
    pub name: Option<String>,
    pub image_url: Option<String>,
    pub kind: Option<AccountSessionWorkspaceKind>,
    pub status: AccountSessionWorkspaceStatus,
}

#[verifier::ext_equal]
pub struct WorkspaceView {
    pub account_id: Seq<char>,
    pub name: Option<Seq<char>>,
    pub image_url: Option<Seq<char>>,
    pub kind: Option<AccountSessionWorkspaceKind>,
    pub status: AccountSessionWorkspaceStatus,
}

impl View for AccountSessionWorkspace {
    type V = WorkspaceView;

    open spec fn view(&self) -> WorkspaceView {
        WorkspaceView {
            account_id: self.account_id@,
            name: self.name.deep_view(),
            image_url: self.image_url.deep_view(),
            kind: self.kind,
            status: self.status,
        }
    }
}

impl DeepView for AccountSessionWorkspace {
    type V = WorkspaceView;

    open spec fn deep_view(&self) -> WorkspaceView {
        self@
    }
}

impl Clone for AccountSessionWorkspace {
    fn clone(&self) -> (res: Self)
        ensures
            res@ == self@,
    {
        AccountSessionWorkspace {
            account_id: self.account_id.clone(),
            name: clone_option(&self.name),
            image_url: clone_option(&self.image_url),
            kind: self.kind,
            status: self.status,
        }
    }
}

/// The tokens of a credential. `rest` is the JSON text of the members that are only carried.
#[derive(Debug, PartialEq, Eq)]
pub struct TokenData {
    pub access_token: String,
    pub account_id: Option<String>,
    pub rest: String,
}

#[verifier::ext_equal]
pub struct TokenView {
    pub access_token: Seq<char>,
    pub account_id: Option<Seq<char>>,
    pub rest: Seq<char>,
}

impl View for TokenData {
    type V = TokenView;

    open spec fn view(&self) -> TokenView {
        TokenView {
            access_token: self.access_token@,
            account_id: self.account_id.deep_view(),
            rest: self.rest@,
        }
    }
}

impl DeepView for TokenData {
    type V = TokenView;

    open spec fn deep_view(&self) -> TokenView {
        self@
    }
}

impl Clone for TokenData {
    fn clone(&self) -> (res: Self)
        ensures
            res@ == self@,
    {
        TokenData {
            access_token: self.access_token.clone(),
            account_id: clone_option(&self.account_id),
            rest: self.rest.clone(),
        }
    }
}

/// A credential. `rest` is the JSON text of the members that are only carried.
#[derive(Debug, PartialEq, Eq)]
pub struct AuthDotJson {
    pub tokens: Option<TokenData>,
    pub rest: String,
}

#[verifier::ext_equal]
pub struct AuthView {
    pub tokens: Option<TokenView>,
    pub rest: Seq<char>,
}

impl View for AuthDotJson {
    type V = AuthView;

    open spec fn view(&self) -> AuthView {
        AuthView { tokens: self.tokens.deep_view(), rest: self.rest@ }
    }
}

impl DeepView for AuthDotJson {
    type V = AuthView;

    open spec fn deep_view(&self) -> AuthView {
        self@
    }
}

impl Clone for AuthDotJson {
    fn clone(&self) -> (res: Self)
        ensures
            res@ == self@,
    {
        let tokens: Option<TokenData> = match &self.tokens {
            Some(tokens) => Some(tokens.clone()),
            None => None,
        };
        AuthDotJson { tokens, rest: self.rest.clone() }
    }
}

/// A saved session: a credential, whose it is, and the workspace that it works in.
#[derive(Debug, PartialEq, Eq)]
pub struct StoredAccountSession {
    pub session_id: String,
    pub auth_json: AuthDotJson,
    pub email: Option<String>,
    pub user_id: Option<String>,
    pub display_name: Option<String>,
    pub image_url: Option<String>,
    pub plan: Option<String>,
    pub last_used_at: i64,
    pub selected_workspace_account_id: Option<String>,
    pub workspaces: Vec<AccountSessionWorkspace>,
}

#[verifier::ext_equal]
pub struct SessionView {
    pub session_id: Seq<char>,
    pub auth_json: AuthView,
    pub email: Option<Seq<char>>,
    pub user_id: Option<Seq<char>>,
    pub display_name: Option<Seq<char>>,
    pub image_url: Option<Seq<char>>,
    pub plan: Option<Seq<char>>,
    pub last_used_at: i64,
    pub selected_workspace_account_id: Option<Seq<char>>,
    pub workspaces: Seq<WorkspaceView>,
}

impl View for StoredAccountSession {
    type V = SessionView;

    open spec fn view(&self) -> SessionView {
        SessionView {
            session_id: self.session_id@,
            auth_json: self.auth_json@,
            email: self.email.deep_view(),
            user_id: self.user_id.deep_view(),
            display_name: self.display_name.deep_view(),
            image_url: self.image_url.deep_view(),
            plan: self.plan.deep_view(),
            last_used_at: self.last_used_at,
            selected_workspace_account_id: self.selected_workspace_account_id.deep_view(),
            workspaces: self.workspaces.deep_view(),
        }
    }
}

impl DeepView for StoredAccountSession {
    type V = SessionView;

    open spec fn deep_view(&self) -> SessionView {
        self@
    }
}

impl Clone for StoredAccountSession {
    fn clone(&self) -> (res: Self)
        ensures
            res@ == self@,
    {
        let workspaces: Vec<AccountSessionWorkspace> = clone_workspaces(&self.workspaces);
        StoredAccountSession {
            session_id: self.session_id.clone(),
            auth_json: self.auth_json.clone(),
            email: clone_option(&self.email),
            user_id: clone_option(&self.user_id),
            display_name: clone_option(&self.display_name),
            image_url: clone_option(&self.image_url),
            plan: clone_option(&self.plan),
            last_used_at: self.last_used_at,
            selected_workspace_account_id: clone_option(&self.selected_workspace_account_id),
            workspaces,
        }
    }
}

fn clone_workspaces(workspaces: &Vec<AccountSessionWorkspace>) -> (res: Vec<
    AccountSessionWorkspace,
>)
    ensures
        res.deep_view() == workspaces.deep_view(),
{
    let res = workspaces.clone();
    assert(res.deep_view() =~= workspaces.deep_view());
    res
}

/// The saved sessions, and which of them is in use.
#[derive(Debug, PartialEq, Eq)]
pub struct StoredAccountSessions {
    pub active_session_id: Option<String>,
    pub sessions: Vec<StoredAccountSession>,
}

#[verifier::ext_equal]
pub struct StoredView {
    pub active_session_id: Option<Seq<char>>,
    pub sessions: Seq<SessionView>,
}

impl View for StoredAccountSessions {
    type V = StoredView;

    open spec fn view(&self) -> StoredView {
        StoredView {
            active_session_id: self.active_session_id.deep_view(),
            sessions: self.sessions.deep_view(),
        }
    }
}

impl DeepView for StoredAccountSessions {
    type V = StoredView;

    open spec fn deep_view(&self) -> StoredView {
        self@
    }
}

impl Clone for StoredAccountSessions {
    fn clone(&self) -> (res: Self)
        ensures
            res@ == self@,
    {
        let sessions = self.sessions.clone();
        assert(sessions.deep_view() =~= self.sessions.deep_view());
        StoredAccountSessions { active_session_id: clone_option(&self.active_session_id), sessions }
    }
}

impl Default for StoredAccountSessions {
    /// No session is saved and none is in use.
    fn default() -> (res: Self)
        ensures
            res@ == (StoredView { active_session_id: None, sessions: Seq::empty() }),
    {
        let sessions: Vec<StoredAccountSession> = Vec::new();
        assert(sessions.deep_view() =~= Seq::<SessionView>::empty());
        StoredAccountSessions { active_session_id: None, sessions }
    }
}

/// What an access token says of its account.
#[derive(Debug, PartialEq, Eq)]
pub struct AccessTokenAuthClaims {
    pub chatgpt_account_id: Option<String>,
    pub chatgpt_plan_type: Option<String>,
    pub chatgpt_user_id: Option<String>,
}

/// What an access token says of its user.
#[derive(Debug, PartialEq, Eq)]
pub struct AccessTokenProfileClaims {
    pub email: Option<String>,
    pub image: Option<String>,
    pub name: Option<String>,
    pub picture: Option<String>,
}

/// What an access token says.
#[derive(Debug, PartialEq, Eq)]
pub struct AccessTokenClaims {
    pub auth: AccessTokenAuthClaims,
    pub profile: AccessTokenProfileClaims,
}

#[verifier::ext_equal]
pub struct ClaimsView {
    pub account_id: Option<Seq<char>>,
    pub plan_type: Option<Seq<char>>,
    pub user_id: Option<Seq<char>>,
    pub email: Option<Seq<char>>,
    pub image: Option<Seq<char>>,
    pub name: Option<Seq<char>>,
    pub picture: Option<Seq<char>>,
}

/// The claims of a token that says nothing.
pub open spec fn no_claims() -> ClaimsView {
    ClaimsView {
        account_id: None,
        plan_type: None,
        user_id: None,
        email: None,
        image: None,
        name: None,
        picture: None,
    }
}

impl View for AccessTokenClaims {
    type V = ClaimsView;

    open spec fn view(&self) -> ClaimsView {
        ClaimsView {
            account_id: self.auth.chatgpt_account_id.deep_view(),
            plan_type: self.auth.chatgpt_plan_type.deep_view(),
            user_id: self.auth.chatgpt_user_id.deep_view(),
            email: self.profile.email.deep_view(),
            image: self.profile.image.deep_view(),
            name: self.profile.name.deep_view(),
            picture: self.profile.picture.deep_view(),
        }
    }
}

impl DeepView for AccessTokenClaims {
    type V = ClaimsView;

    open spec fn deep_view(&self) -> ClaimsView {
        self@
    }
}

impl Default for AccessTokenClaims {
    fn default() -> (res: Self)
        ensures
            res@ == no_claims(),
    {
        AccessTokenClaims {
            auth: AccessTokenAuthClaims {
                chatgpt_account_id: None,
                chatgpt_plan_type: None,
                chatgpt_user_id: None,
            },
            profile: AccessTokenProfileClaims {
                email: None,
                image: None,
                name: None,
                picture: None,
            },
        }
    }
}

/// An account as the backend lists it.
#[derive(Debug, PartialEq, Eq)]
pub struct AccountEntry {
    pub id: String,
    pub name: Option<String>,
    pub profile_picture_url: Option<String>,
    pub structure: String,
}

#[verifier::ext_equal]
pub struct AccountEntryView {
    pub id: Seq<char>,
    pub name: Option<Seq<char>>,
    pub profile_picture_url: Option<Seq<char>>,
    pub structure: Seq<char>,
}

impl View for AccountEntry {
    type V = AccountEntryView;

    open spec fn view(&self) -> AccountEntryView {
        AccountEntryView {
            id: self.id@,
            name: self.name.deep_view(),
            profile_picture_url: self.profile_picture_url.deep_view(),
            structure: self.structure@,
        }
    }
}

impl DeepView for AccountEntry {
    type V = AccountEntryView;

    open spec fn deep_view(&self) -> AccountEntryView {
        self@
    }
}

/// The backend's answer to which accounts a credential has.
#[derive(Debug, PartialEq, Eq)]
pub struct AccountsCheck {
    pub default_account_id: Option<String>,
    pub account_ordering: Vec<String>,
    pub accounts: Vec<AccountEntry>,
}

#[verifier::ext_equal]
pub struct AccountsView {
    pub default_account_id: Option<Seq<char>>,
    pub account_ordering: Seq<Seq<char>>,
    pub accounts: Seq<AccountEntryView>,
}

impl View for AccountsCheck {
    type V = AccountsView;

    open spec fn view(&self) -> AccountsView {
        AccountsView {
            default_account_id: self.default_account_id.deep_view(),
            account_ordering: self.account_ordering.deep_view(),
            accounts: self.accounts.deep_view(),
        }
    }
}

impl DeepView for AccountsCheck {
    type V = AccountsView;

    open spec fn deep_view(&self) -> AccountsView {
        self@
    }
}

/// A saved session as it is shown: without its credential.
#[derive(Debug, PartialEq, Eq)]
pub struct AccountSession {
    pub is_active: bool,
    pub session_id: String,
    pub email: Option<String>,
    pub user_id: Option<String>,
    pub display_name: Option<String>,
    pub image_url: Option<String>,
    pub plan: Option<String>,
    pub last_used_at: i64,
    pub selected_workspace_account_id: Option<String>,
    pub workspaces: Vec<AccountSessionWorkspace>,
}

#[verifier::ext_equal]
pub struct AccountSessionView {
    pub is_active: bool,
    pub session_id: Seq<char>,
    pub email: Option<Seq<char>>,
    pub user_id: Option<Seq<char>>,
    pub display_name: Option<Seq<char>>,
    pub image_url: Option<Seq<char>>,
    pub plan: Option<Seq<char>>,
    pub last_used_at: i64,
    pub selected_workspace_account_id: Option<Seq<char>>,
    pub workspaces: Seq<WorkspaceView>,
}

impl View for AccountSession {
    type V = AccountSessionView;

    open spec fn view(&self) -> AccountSessionView {
        AccountSessionView {
            is_active: self.is_active,
            session_id: self.session_id@,
            email: self.email.deep_view(),
            user_id: self.user_id.deep_view(),
            display_name: self.display_name.deep_view(),
            image_url: self.image_url.deep_view(),
            plan: self.plan.deep_view(),
            last_used_at: self.last_used_at,
            selected_workspace_account_id: self.selected_workspace_account_id.deep_view(),
            workspaces: self.workspaces.deep_view(),
        }
    }
}

impl DeepView for AccountSession {
    type V = AccountSessionView;

    open spec fn deep_view(&self) -> AccountSessionView {
        self@
    }
}

/// The saved sessions as they are shown.
#[derive(Debug, PartialEq, Eq)]
pub struct AccountSessionsResponse {
    pub active_session_id: Option<String>,
    pub sessions: Vec<AccountSession>,
}

#[verifier::ext_equal]
pub struct ResponseView {
    pub active_session_id: Option<Seq<char>>,
    pub sessions: Seq<AccountSessionView>,
}

impl View for AccountSessionsResponse {
    type V = ResponseView;

    open spec fn view(&self) -> ResponseView {
        ResponseView {
            active_session_id: self.active_session_id.deep_view(),
            sessions: self.sessions.deep_view(),
        }
    }
}

impl DeepView for AccountSessionsResponse {
    type V = ResponseView;

    open spec fn deep_view(&self) -> ResponseView {
        self@
    }
}

} // verus!
