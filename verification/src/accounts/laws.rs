//! What holds of the saved sessions whatever is done with them.
use crate::accounts::operation::{imported, refreshed_at};
use crate::accounts::response::{latest_first, lemma_latest_first_keeps_each, response_of, shown};
use crate::accounts::session::bound_to;
use crate::accounts::store::{
    account_from, id_from, is_newest, newest, same_account, CredentialView,
};
use crate::accounts::types::{AccountsView, SessionView, StoredView};
use vstd::prelude::*;

verus! {

impl StoredView {
    /// The session in use, if there is one, is a saved one.
    pub open spec fn active_is_saved(self) -> bool {
        self.active_session_id matches Some(session_id) ==> self.has(session_id)
    }

    /// No two saved sessions have one id.
    pub open spec fn ids_differ(self) -> bool {
        forall|i: int, j: int|
            0 <= i < j < self.sessions.len() ==> #[trigger] self.sessions[i].session_id
                != #[trigger] self.sessions[j].session_id
    }
}

/// What `id_from` finds.
pub proof fn lemma_id_from(sessions: Seq<SessionView>, session_id: Seq<char>, from: int)
    requires
        0 <= from <= sessions.len(),
    ensures
        from <= id_from(sessions, session_id, from) <= sessions.len(),
        id_from(sessions, session_id, from) < sessions.len() ==> sessions[id_from(
            sessions,
            session_id,
            from,
        )].session_id == session_id,
        forall|k: int|
            from <= k < id_from(sessions, session_id, from) ==> #[trigger] sessions[k].session_id
                != session_id,
    decreases sessions.len() - from,
{
    if from < sessions.len() && sessions[from].session_id != session_id {
        lemma_id_from(sessions, session_id, from + 1);
    }
}

/// What `account_from` finds.
pub proof fn lemma_account_from(sessions: Seq<SessionView>, session: SessionView, from: int)
    requires
        0 <= from <= sessions.len(),
    ensures
        from <= account_from(sessions, session, from) <= sessions.len(),
        account_from(sessions, session, from) < sessions.len() ==> same_account(
            session,
            sessions[account_from(sessions, session, from)],
        ),
        forall|k: int|
            from <= k < account_from(sessions, session, from) ==> !same_account(
                session,
                #[trigger] sessions[k],
            ),
    decreases sessions.len() - from,
{
    if from < sessions.len() && !same_account(session, sessions[from]) {
        lemma_account_from(sessions, session, from + 1);
    }
}

/// A session with an id is saved exactly where one stands in the list.
pub proof fn lemma_has(stored: StoredView, at: int)
    requires
        0 <= at < stored.sessions.len(),
    ensures
        stored.has(stored.sessions[at].session_id),
        stored.ids_differ() ==> stored.session(stored.sessions[at].session_id)
            == stored.sessions[at],
{
    let session_id = stored.sessions[at].session_id;
    lemma_id_from(stored.sessions, session_id, 0);
    let found = id_from(stored.sessions, session_id, 0);
    if stored.ids_differ() && found < at {
        assert(stored.sessions[found].session_id != stored.sessions[at].session_id);
    }
}

/// Where the first place found for the account of a session is known.
proof fn lemma_account_at(sessions: Seq<SessionView>, session: SessionView, at: int)
    requires
        0 <= at < sessions.len(),
        same_account(session, sessions[at]),
        forall|k: int| 0 <= k < at ==> !same_account(session, #[trigger] sessions[k]),
    ensures
        account_from(sessions, session, 0) == at,
{
    lemma_account_from(sessions, session, 0);
    let found = account_from(sessions, session, 0);
    if found < at {
        assert(!same_account(session, sessions[found]));
    }
}

/// Adding keeps every saved session but that of the account added, each in its place; the
/// session added stands in the place of the latter, under its id, or at the end.
pub proof fn law_add_keeps_the_others(stored: StoredView, session: SessionView, switch: bool)
    ensures
        ({
            let after = stored.with_added(session, switch);
            let at = account_from(stored.sessions, session, 0);
            &&& 0 <= at < after.sessions.len()
            &&& after.sessions.len() == if at < stored.sessions.len() {
                stored.sessions.len()
            } else {
                stored.sessions.len() + 1
            }
            &&& after.sessions[at] == stored.identified(session)
            &&& forall|i: int|
                0 <= i < stored.sessions.len() && i != at ==> #[trigger] after.sessions[i]
                    == stored.sessions[i]
        }),
{
    lemma_account_from(stored.sessions, session, 0);
}

/// Adding an account that is saved already does not make the list longer: a session whose
/// email or user id is that of a saved one takes its place and its id.
pub proof fn law_add_saves_an_account_once(
    stored: StoredView,
    session: SessionView,
    switch: bool,
    saved: int,
)
    requires
        0 <= saved < stored.sessions.len(),
        same_account(session, stored.sessions[saved]),
    ensures
        stored.with_added(session, switch).sessions.len() == stored.sessions.len(),
        forall|i: int|
            0 <= i < stored.sessions.len() ==> #[trigger] stored.with_added(
                session,
                switch,
            ).sessions[i].session_id == stored.sessions[i].session_id,
{
    lemma_account_from(stored.sessions, session, 0);
}

/// Adding a session a second time changes nothing, if it has an email or a user id to be known
/// by.
pub proof fn law_add_is_idempotent(stored: StoredView, session: SessionView, switch: bool)
    requires
        session.email is Some || session.user_id is Some,
    ensures
        stored.with_added(session, switch).with_added(session, switch) == stored.with_added(
            session,
            switch,
        ),
{
    let once = stored.with_added(session, switch);
    let at = account_from(stored.sessions, session, 0);
    lemma_account_from(stored.sessions, session, 0);
    assert(once.sessions[at] == stored.identified(session));
    assert forall|k: int| 0 <= k < at implies !same_account(
        session,
        #[trigger] once.sessions[k],
    ) by {
        assert(once.sessions[k] == stored.sessions[k]);
    }
    lemma_account_at(once.sessions, session, at);
    assert(once.identified(session) == once.sessions[at]);
    assert(once.sessions.update(at, once.sessions[at]) =~= once.sessions);
}

/// The first session saved is in use, and saved.
pub proof fn law_import_uses_a_saved_session(session: SessionView)
    ensures
        imported(session).active_is_saved(),
{
    lemma_has(imported(session), 0);
}

/// Adding leaves a saved session in use, or none.
pub proof fn law_add_keeps_active_saved(stored: StoredView, session: SessionView, switch: bool)
    requires
        stored.active_is_saved(),
    ensures
        stored.with_added(session, switch).active_is_saved(),
{
    let after = stored.with_added(session, switch);
    let at = account_from(stored.sessions, session, 0);
    lemma_account_from(stored.sessions, session, 0);
    if switch {
        lemma_has(after, at);
    } else if stored.active_session_id is Some {
        let active = stored.active_session_id->0;
        lemma_id_from(stored.sessions, active, 0);
        let place = id_from(stored.sessions, active, 0);
        assert(after.sessions[place].session_id == active);
        lemma_has(after, place);
    }
}

/// Logging out leaves a saved session in use, or none.
pub proof fn law_logout_keeps_active_saved(stored: StoredView, session_id: Seq<char>)
    requires
        stored.active_is_saved(),
        stored.has(session_id),
    ensures
        stored.without(session_id).with_successor(session_id).active_is_saved(),
{
    let gone = id_from(stored.sessions, session_id, 0);
    lemma_id_from(stored.sessions, session_id, 0);
    let rest = stored.without(session_id);
    if stored.active_session_id == Some(session_id) {
        if rest.sessions.len() > 0 {
            law_someone_is_newest(rest.sessions);
            lemma_has(rest.with_successor(session_id), newest(rest.sessions));
        }
    } else if stored.active_session_id is Some {
        let active = stored.active_session_id->0;
        lemma_id_from(stored.sessions, active, 0);
        let place = id_from(stored.sessions, active, 0);
        assert(place != gone);
        let moved = if place < gone {
            place
        } else {
            place - 1
        };
        assert(rest.sessions[moved] == stored.sessions[place]);
        lemma_has(rest.with_successor(session_id), moved);
    }
}

/// Switching puts a saved session in use.
pub proof fn law_switch_uses_a_saved_session(
    stored: StoredView,
    session_id: Seq<char>,
    account_id: Seq<char>,
    now: i64,
)
    requires
        stored.has(session_id),
    ensures
        stored.switched(session_id, account_id, now).active_is_saved(),
{
    lemma_id_from(stored.sessions, session_id, 0);
    let at = id_from(stored.sessions, session_id, 0);
    lemma_has(stored.switched(session_id, account_id, now), at);
}

/// Refreshing leaves a saved session in use, or none.
pub proof fn law_refresh_keeps_active_saved(
    stored: StoredView,
    at: int,
    answer: Option<AccountsView>,
)
    requires
        stored.active_is_saved(),
        0 <= at,
    ensures
        refreshed_at(stored, at, answer).active_is_saved(),
{
    let after = refreshed_at(stored, at, answer);
    if stored.active_session_id is Some {
        let active = stored.active_session_id->0;
        lemma_id_from(stored.sessions, active, 0);
        let place = id_from(stored.sessions, active, 0);
        assert(after.sessions[place].session_id == active);
        lemma_has(after, place);
    }
}

/// Where sessions are saved, one of them was used last.
pub proof fn law_someone_is_newest(sessions: Seq<SessionView>)
    requires
        sessions.len() > 0,
    ensures
        is_newest(sessions, newest(sessions)),
    decreases sessions.len(),
{
    let last = sessions.len() - 1;
    if sessions.len() == 1 {
        assert(is_newest(sessions, 0));
    } else {
        let front = sessions.drop_last();
        law_someone_is_newest(front);
        let best = newest(front);
        if sessions[last].last_used_at >= sessions[best].last_used_at {
            assert forall|i: int| 0 <= i < sessions.len() implies #[trigger] sessions[i].last_used_at
                <= sessions[last].last_used_at by {
                if i < last {
                    assert(front[i].last_used_at <= front[best].last_used_at);
                }
            }
            assert(is_newest(sessions, last));
        } else {
            assert forall|i: int| 0 <= i < sessions.len() implies #[trigger] sessions[i].last_used_at
                <= sessions[best].last_used_at by {
                if i < last {
                    assert(front[i].last_used_at <= front[best].last_used_at);
                }
            }
            assert forall|i: int| best < i < sessions.len() implies #[trigger] sessions[i].last_used_at
                < sessions[best].last_used_at by {
                if i < last {
                    assert(front[i].last_used_at < front[best].last_used_at);
                }
            }
            assert(is_newest(sessions, best));
        }
    }
}

/// Adding keeps ids different. A session that is added under an id of its own must bring one
/// that no saved session has.
pub proof fn law_add_keeps_ids_different(stored: StoredView, session: SessionView, switch: bool)
    requires
        stored.ids_differ(),
        !stored.has(session.session_id),
    ensures
        stored.with_added(session, switch).ids_differ(),
{
    lemma_account_from(stored.sessions, session, 0);
    lemma_id_from(stored.sessions, session.session_id, 0);
    let after = stored.with_added(session, switch);
    assert forall|i: int, j: int| 0 <= i < j < after.sessions.len() implies #[trigger] after.sessions[i].session_id
        != #[trigger] after.sessions[j].session_id by {
        if j < stored.sessions.len() {
            assert(after.sessions[i].session_id == stored.sessions[i].session_id);
            assert(after.sessions[j].session_id == stored.sessions[j].session_id);
        } else {
            assert(after.sessions[i] == stored.sessions[i]);
            assert(after.sessions[j] == session);
        }
    }
}

/// Logging out keeps ids different.
pub proof fn law_logout_keeps_ids_different(stored: StoredView, session_id: Seq<char>)
    requires
        stored.ids_differ(),
        stored.has(session_id),
    ensures
        stored.without(session_id).with_successor(session_id).ids_differ(),
{
    lemma_id_from(stored.sessions, session_id, 0);
    let gone = id_from(stored.sessions, session_id, 0);
    let rest = stored.without(session_id).with_successor(session_id);
    assert forall|i: int, j: int| 0 <= i < j < rest.sessions.len() implies #[trigger] rest.sessions[i].session_id
        != #[trigger] rest.sessions[j].session_id by {
        let i0 = if i < gone {
            i
        } else {
            i + 1
        };
        let j0 = if j < gone {
            j
        } else {
            j + 1
        };
        assert(stored.sessions[i0].session_id != stored.sessions[j0].session_id);
    }
}

/// Switching keeps the id of every session.
pub proof fn law_switch_keeps_ids(
    stored: StoredView,
    session_id: Seq<char>,
    account_id: Seq<char>,
    now: i64,
)
    requires
        stored.has(session_id),
    ensures
        stored.switched(session_id, account_id, now).sessions.len() == stored.sessions.len(),
        forall|i: int|
            0 <= i < stored.sessions.len() ==> #[trigger] stored.switched(
                session_id,
                account_id,
                now,
            ).sessions[i].session_id == stored.sessions[i].session_id,
{
    lemma_id_from(stored.sessions, session_id, 0);
}

/// Refreshing changes one session, and of it only the workspace that it works in, the account
/// of its tokens and its workspaces.
pub proof fn law_refresh_keeps_identity(
    stored: StoredView,
    at: int,
    answer: Option<AccountsView>,
)
    requires
        0 <= at < stored.sessions.len(),
    ensures
        ({
            let after = refreshed_at(stored, at, answer);
            let was = stored.sessions[at];
            &&& after.active_session_id == stored.active_session_id
            &&& after.sessions.len() == stored.sessions.len()
            &&& after.sessions[at] == (SessionView {
                auth_json: after.sessions[at].auth_json,
                selected_workspace_account_id: after.sessions[at].selected_workspace_account_id,
                workspaces: after.sessions[at].workspaces,
                ..was
            })
            &&& was.selected_workspace_account_id is Some
                ==> after.sessions[at].selected_workspace_account_id
                == was.selected_workspace_account_id
            &&& forall|i: int|
                0 <= i < stored.sessions.len() && i != at ==> #[trigger] after.sessions[i]
                    == stored.sessions[i]
        }),
{
}

/// Logging out takes away the session with the id and no other, and leaves the rest in order;
/// after it no session has the id.
pub proof fn law_logout_removes_one(stored: StoredView, session_id: Seq<char>)
    requires
        stored.has(session_id),
        stored.ids_differ(),
    ensures
        ({
            let rest = stored.without(session_id).with_successor(session_id);
            let gone = id_from(stored.sessions, session_id, 0);
            &&& rest.sessions == stored.sessions.remove(gone)
            &&& rest.sessions.len() == stored.sessions.len() - 1
            &&& !rest.has(session_id)
        }),
{
    let rest = stored.without(session_id).with_successor(session_id);
    let gone = id_from(stored.sessions, session_id, 0);
    lemma_id_from(stored.sessions, session_id, 0);
    lemma_id_from(rest.sessions, session_id, 0);
    let found = id_from(rest.sessions, session_id, 0);
    if found < rest.sessions.len() {
        if found < gone {
            assert(rest.sessions[found] == stored.sessions[found]);
        } else {
            assert(rest.sessions[found] == stored.sessions[found + 1]);
            assert(stored.sessions[gone].session_id != stored.sessions[found + 1].session_id);
        }
    }
}

/// Logging out of a session that is not in use changes neither which one is in use nor the
/// credential in use.
pub proof fn law_logout_of_another_keeps_active(stored: StoredView, session_id: Seq<char>)
    requires
        stored.active_session_id != Some(session_id),
    ensures
        stored.without(session_id).with_successor(session_id).active_session_id
            == stored.active_session_id,
        stored.without(session_id).successor_credential(session_id) is Keep,
{
}

/// Logging out of the session in use puts the one used last in use, or none where none is left;
/// the credential follows.
pub proof fn law_logout_of_active_uses_newest(stored: StoredView, session_id: Seq<char>)
    requires
        stored.has(session_id),
        stored.active_session_id == Some(session_id),
    ensures
        ({
            let rest = stored.without(session_id);
            let at = newest(rest.sessions);
            if rest.sessions.len() > 0 {
                &&& is_newest(rest.sessions, at)
                &&& rest.with_successor(session_id).active_session_id == Some(
                    rest.sessions[at].session_id,
                )
                &&& rest.successor_credential(session_id) == CredentialView::Write(
                    rest.sessions[at].auth_json,
                )
            } else {
                &&& rest.with_successor(session_id).active_session_id is None
                &&& rest.successor_credential(session_id) is Clear
            }
        }),
{
    let rest = stored.without(session_id);
    if rest.sessions.len() > 0 {
        law_someone_is_newest(rest.sessions);
    }
}

/// Switching puts the session in use, binds it and its tokens to the account and marks it as
/// used; the other sessions stay.
pub proof fn law_switch_changes_one(
    stored: StoredView,
    session_id: Seq<char>,
    account_id: Seq<char>,
    now: i64,
)
    requires
        stored.has(session_id),
        stored.session(session_id).auth_json.tokens is Some,
    ensures
        ({
            let after = stored.switched(session_id, account_id, now);
            let at = id_from(stored.sessions, session_id, 0);
            let session = after.session(session_id);
            &&& after.active_session_id == Some(session_id)
            &&& after.sessions.len() == stored.sessions.len()
            &&& session == after.sessions[at]
            &&& session.auth_json.tokens matches Some(tokens) && tokens.account_id == Some(
                account_id,
            )
            &&& session.selected_workspace_account_id == Some(account_id)
            &&& session.last_used_at == now
            &&& session.auth_json == bound_to(
                stored.session(session_id).auth_json,
                Some(account_id),
            )
            &&& forall|i: int|
                0 <= i < stored.sessions.len() && i != at ==> #[trigger] after.sessions[i]
                    == stored.sessions[i]
        }),
{
    let after = stored.switched(session_id, account_id, now);
    let at = id_from(stored.sessions, session_id, 0);
    lemma_id_from(stored.sessions, session_id, 0);
    lemma_id_from(after.sessions, session_id, 0);
    let found = id_from(after.sessions, session_id, 0);
    if found < at {
        assert(after.sessions[found] == stored.sessions[found]);
    }
    assert(after.sessions[at].session_id == session_id);
}

/// Every session shown is a saved one, marked as in use exactly where its id is the one in use.
pub proof fn law_marks_are_right(stored: StoredView)
    ensures
        response_of(stored).active_session_id == stored.active_session_id,
        forall|i: int|
            0 <= i < response_of(stored).sessions.len() ==> {
                let session = #[trigger] response_of(stored).sessions[i];
                &&& session.is_active <==> stored.active_session_id == Some(session.session_id)
                &&& exists|j: int|
                    0 <= j < stored.sessions.len() && session == shown(
                        #[trigger] stored.sessions[j],
                        stored.active_session_id,
                    )
            },
{
    broadcast use vstd::seq_lib::group_to_multiset_ensures;

    let all = stored.sessions.map_values(
        |session: SessionView| shown(session, stored.active_session_id),
    );
    lemma_latest_first_keeps_each(all);
    let listed = latest_first(all);
    assert forall|i: int| 0 <= i < listed.len() implies {
        let session = #[trigger] listed[i];
        &&& session.is_active <==> stored.active_session_id == Some(session.session_id)
        &&& exists|j: int|
            0 <= j < stored.sessions.len() && session == shown(
                #[trigger] stored.sessions[j],
                stored.active_session_id,
            )
    } by {
        assert(listed.contains(listed[i]));
        assert(all.to_multiset().count(listed[i]) > 0);
        let j = choose|j: int| 0 <= j < all.len() && all[j] == listed[i];
        assert(listed[i] == shown(stored.sessions[j], stored.active_session_id));
    }
}

/// Where a saved session is in use and ids are different, exactly one session shown is marked as
/// in use.
pub proof fn law_one_mark(stored: StoredView) -> (at: int)
    requires
        stored.ids_differ(),
        stored.active_session_id is Some,
        stored.active_is_saved(),
    ensures
        0 <= at < response_of(stored).sessions.len(),
        forall|i: int|
            0 <= i < response_of(stored).sessions.len() ==> (#[trigger] response_of(
                stored,
            ).sessions[i].is_active <==> i == at),
{
    broadcast use vstd::seq_lib::group_to_multiset_ensures;

    let active = stored.active_session_id->0;
    let all = stored.sessions.map_values(
        |session: SessionView| shown(session, stored.active_session_id),
    );
    let listed = latest_first(all);
    lemma_latest_first_keeps_each(all);
    law_marks_are_right(stored);
    lemma_id_from(stored.sessions, active, 0);
    let place = id_from(stored.sessions, active, 0);
    assert forall|i: int, j: int| 0 <= i < all.len() && 0 <= j < all.len() && i != j implies all[i]
        != all[j] by {
        if i < j {
            assert(stored.sessions[i].session_id != stored.sessions[j].session_id);
        } else {
            assert(stored.sessions[j].session_id != stored.sessions[i].session_id);
        }
        assert(all[i].session_id != all[j].session_id);
    }
    all.lemma_multiset_has_no_duplicates();
    listed.lemma_multiset_has_no_duplicates_conv();
    assert(all.contains(all[place]));
    assert(listed.to_multiset().count(all[place]) > 0);
    let at = choose|at: int| 0 <= at < listed.len() && listed[at] == all[place];
    assert forall|i: int| 0 <= i < listed.len() implies (#[trigger] listed[i].is_active <==> i
        == at) by {
        if listed[i].is_active {
            let j = choose|j: int|
                0 <= j < stored.sessions.len() && listed[i] == shown(
                    #[trigger] stored.sessions[j],
                    stored.active_session_id,
                );
            if j < place {
                assert(stored.sessions[j].session_id != stored.sessions[place].session_id);
            } else if place < j {
                assert(stored.sessions[place].session_id != stored.sessions[j].session_id);
            }
            assert(listed[i] == listed[at]);
        }
    }
    at
}

} // verus!
