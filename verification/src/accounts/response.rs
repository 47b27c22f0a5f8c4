//! Showing the saved sessions.
use crate::accounts::types::{
    AccountSession, AccountSessionView, AccountSessionsResponse, ResponseView, SessionView,
    StoredAccountSession, StoredAccountSessions, StoredView,
};
use vstd::prelude::*;

verus! {

/// A saved session as it is shown.
pub open spec fn shown(session: SessionView, active: Option<Seq<char>>) -> AccountSessionView {
    AccountSessionView {
        is_active: active == Some(session.session_id),
        session_id: session.session_id,
        email: session.email,
        user_id: session.user_id,
        display_name: session.display_name,
        image_url: session.image_url,
        plan: session.plan,
        last_used_at: session.last_used_at,
        selected_workspace_account_id: session.selected_workspace_account_id,
        workspaces: session.workspaces,
    }
}

/// The number of sessions at the front of `sessions` that were used at `time` or later.
pub open spec fn used_since(sessions: Seq<AccountSessionView>, time: i64) -> int
    decreases sessions.len(),
{
    if sessions.len() == 0 || sessions.first().last_used_at < time {
        0
    } else {
        1 + used_since(sessions.drop_first(), time)
    }
}

/// The sessions in the order of their last use, the latest first. Sessions used at one time
/// keep their order.
pub open spec fn latest_first(sessions: Seq<AccountSessionView>) -> Seq<AccountSessionView>
    decreases sessions.len(),
{
    if sessions.len() == 0 {
        sessions
    } else {
        let before = latest_first(sessions.drop_last());
        before.insert(used_since(before, sessions.last().last_used_at), sessions.last())
    }
}

/// The saved sessions as they are shown.
pub open spec fn response_of(stored: StoredView) -> ResponseView {
    ResponseView {
        active_session_id: stored.active_session_id,
        sessions: latest_first(
            stored.sessions.map_values(
                |session: SessionView| shown(session, stored.active_session_id),
            ),
        ),
    }
}

/// The bounds of `used_since`.
pub proof fn lemma_used_since_bounds(sessions: Seq<AccountSessionView>, time: i64)
    ensures
        0 <= used_since(sessions, time) <= sessions.len(),
        forall|i: int|
            0 <= i < used_since(sessions, time) ==> #[trigger] sessions[i].last_used_at >= time,
        used_since(sessions, time) < sessions.len() ==> sessions[used_since(
            sessions,
            time,
        )].last_used_at < time,
    decreases sessions.len(),
{
    if sessions.len() > 0 && sessions.first().last_used_at >= time {
        let rest = sessions.drop_first();
        lemma_used_since_bounds(rest, time);
        assert forall|i: int| 0 <= i < used_since(sessions, time) implies #[trigger] sessions[i].last_used_at
            >= time by {
            if i > 0 {
                assert(sessions[i] == rest[i - 1]);
            }
        }
    }
}

/// Where a front part of the sessions was used since a time and the next one was not, the
/// front part is what `used_since` counts.
proof fn lemma_used_since_is(sessions: Seq<AccountSessionView>, time: i64, n: int)
    requires
        0 <= n <= sessions.len(),
        forall|i: int| 0 <= i < n ==> #[trigger] sessions[i].last_used_at >= time,
        n < sessions.len() ==> sessions[n].last_used_at < time,
    ensures
        used_since(sessions, time) == n,
{
    lemma_used_since_bounds(sessions, time);
    let m = used_since(sessions, time);
    if m < n {
        assert(sessions[m].last_used_at >= time);
    } else if m > n {
        assert(sessions[n].last_used_at >= time);
    }
}

/// The place for a session used at `time` in a list with the latest first.
fn place_for(sessions: &Vec<AccountSession>, time: i64) -> (res: usize)
    ensures
        res <= sessions@.len(),
        res == used_since(sessions.deep_view(), time),
{
    let ghost views = sessions.deep_view();
    let mut i: usize = 0;
    while i < sessions.len() && sessions[i].last_used_at >= time
        invariant
            i <= sessions@.len(),
            views == sessions.deep_view(),
            forall|k: int| 0 <= k < i ==> #[trigger] views[k].last_used_at >= time,
        ensures
            i <= sessions@.len(),
            forall|k: int| 0 <= k < i ==> #[trigger] views[k].last_used_at >= time,
            i < sessions@.len() ==> views[i as int].last_used_at < time,
        decreases sessions@.len() - i,
    {
        i = i + 1;
    }
    proof {
        lemma_used_since_is(views, time, i as int);
    }
    i
}

/// A saved session as it is shown, `active` being the id of the session in use.
fn show(session: StoredAccountSession, active: &Option<String>) -> (res: AccountSession)
    ensures
        res@ == shown(session@, active.deep_view()),
{
    let is_active: bool = match active {
        Some(active) => *active == session.session_id,
        None => false,
    };
    AccountSession {
        is_active,
        session_id: session.session_id,
        email: session.email,
        user_id: session.user_id,
        display_name: session.display_name,
        image_url: session.image_url,
        plan: session.plan,
        last_used_at: session.last_used_at,
        selected_workspace_account_id: session.selected_workspace_account_id,
        workspaces: session.workspaces,
    }
}

/// The saved sessions as they are shown: without their credentials, the latest used first.
pub fn response(stored: StoredAccountSessions) -> (res: AccountSessionsResponse)
    ensures
        res@ == response_of(stored@),
{
    let ghost active = stored@.active_session_id;
    let ghost all = stored@.sessions.map_values(|session: SessionView| shown(session, active));
    let active_session_id: Option<String> = stored.active_session_id;
    let saved: Vec<StoredAccountSession> = stored.sessions;
    let mut sessions: Vec<AccountSession> = Vec::new();
    assert(sessions.deep_view() =~= latest_first(all.take(0)));
    for session in iter: saved
        invariant
            iter.seq() == saved@,
            active == active_session_id.deep_view(),
            all == saved.deep_view().map_values(|session: SessionView| shown(session, active)),
            sessions.deep_view() == latest_first(all.take(iter.index())),
    {
        let ghost before = sessions.deep_view();
        let ghost i = iter.index();
        let session = show(session, &active_session_id);
        let at: usize = place_for(&sessions, session.last_used_at);
        let ghost view = session@;
        sessions.insert(at, session);
        proof {
            assert(all[i] == view);
            assert(all.take(i + 1).drop_last() =~= all.take(i));
            assert(all.take(i + 1).last() == view);
            assert(sessions.deep_view() =~= before.insert(at as int, view));
        }
    }
    assert(all.take(all.len() as int) =~= all);
    AccountSessionsResponse { active_session_id, sessions }
}

/// Whether no session stands behind one that was used earlier.
pub open spec fn is_latest_first(sessions: Seq<AccountSessionView>) -> bool {
    forall|i: int, j: int|
        0 <= i < j < sessions.len() ==> #[trigger] sessions[i].last_used_at
            >= #[trigger] sessions[j].last_used_at
}

/// The sessions that were used last at `time`, in their order.
pub open spec fn used_at(sessions: Seq<AccountSessionView>, time: i64) -> Seq<AccountSessionView> {
    sessions.filter(|session: AccountSessionView| session.last_used_at == time)
}

/// Whether two lists hold the same sessions, and those used at one time in one order.
pub open spec fn same_at_each_time(
    sessions: Seq<AccountSessionView>,
    others: Seq<AccountSessionView>,
) -> bool {
    forall|time: i64| #[trigger] used_at(sessions, time) == used_at(others, time)
}

/// The list shown is in the order of last use.
pub proof fn lemma_latest_first_is_ordered(sessions: Seq<AccountSessionView>)
    ensures
        is_latest_first(latest_first(sessions)),
    decreases sessions.len(),
{
    if sessions.len() > 0 {
        let before = latest_first(sessions.drop_last());
        let last = sessions.last();
        let at = used_since(before, last.last_used_at);
        lemma_latest_first_is_ordered(sessions.drop_last());
        lemma_used_since_bounds(before, last.last_used_at);
        let after = before.insert(at, last);
        assert forall|i: int, j: int| 0 <= i < j < after.len() implies #[trigger] after[i].last_used_at
            >= #[trigger] after[j].last_used_at by {
            let i0 = if i < at {
                i
            } else {
                i - 1
            };
            let j0 = if j < at {
                j
            } else {
                j - 1
            };
            if i != at {
                assert(after[i] == before[i0]);
            }
            if j != at {
                assert(after[j] == before[j0]);
            }
            if i == at {
                assert(before[at].last_used_at >= before[j0].last_used_at);
            }
        }
    }
}

/// The list shown holds each saved session as often as it is saved.
pub proof fn lemma_latest_first_keeps_each(sessions: Seq<AccountSessionView>)
    ensures
        latest_first(sessions).len() == sessions.len(),
        latest_first(sessions).to_multiset() == sessions.to_multiset(),
    decreases sessions.len(),
{
    broadcast use vstd::seq_lib::group_to_multiset_ensures;

    if sessions.len() > 0 {
        let before = latest_first(sessions.drop_last());
        let last = sessions.last();
        lemma_latest_first_keeps_each(sessions.drop_last());
        lemma_used_since_bounds(before, last.last_used_at);
        assert(sessions =~= sessions.drop_last().push(last));
    }
}

/// Filtering a list with one more session in it.
proof fn lemma_used_at_insert(
    sessions: Seq<AccountSessionView>,
    at: int,
    added: AccountSessionView,
    time: i64,
)
    requires
        0 <= at <= sessions.len(),
        forall|i: int|
            at <= i < sessions.len() ==> #[trigger] sessions[i].last_used_at != added.last_used_at,
    ensures
        used_at(sessions.insert(at, added), time) == if added.last_used_at == time {
            used_at(sessions, time).push(added)
        } else {
            used_at(sessions, time)
        },
    decreases sessions.len() - at,
{
    broadcast use vstd::seq_lib::group_filter_ensures;

    let after = sessions.insert(at, added);
    let pred = |session: AccountSessionView| session.last_used_at == time;
    if at == sessions.len() {
        assert(after =~= sessions.push(added));
        assert(after.drop_last() =~= sessions);
        reveal(Seq::filter);
    } else {
        let rest = sessions.drop_last();
        assert(after.drop_last() =~= rest.insert(at, added));
        assert(after.last() == sessions.last());
        lemma_used_at_insert(rest, at, added, time);
        assert(sessions.last() == sessions[sessions.len() - 1]);
        reveal(Seq::filter);
        assert(after.filter(pred) == if pred(after.last()) {
            after.drop_last().filter(pred).push(after.last())
        } else {
            after.drop_last().filter(pred)
        });
    }
}

/// The list shown holds the saved sessions, and those used at one time in the order in which
/// they are saved.
pub proof fn lemma_latest_first_is_stable(sessions: Seq<AccountSessionView>)
    ensures
        same_at_each_time(latest_first(sessions), sessions),
    decreases sessions.len(),
{
    if sessions.len() > 0 {
        let before = latest_first(sessions.drop_last());
        let last = sessions.last();
        let at = used_since(before, last.last_used_at);
        lemma_latest_first_is_stable(sessions.drop_last());
        lemma_latest_first_is_ordered(sessions.drop_last());
        lemma_used_since_bounds(before, last.last_used_at);
        assert forall|i: int| at <= i < before.len() implies #[trigger] before[i].last_used_at
            != last.last_used_at by {
            if i > at {
                assert(before[at].last_used_at >= before[i].last_used_at);
            }
        }
        assert forall|time: i64| #[trigger]
            used_at(latest_first(sessions), time) == used_at(sessions, time) by {
            lemma_used_at_insert(before, at, last, time);
            assert(used_at(before, time) == used_at(sessions.drop_last(), time));
            reveal(Seq::filter);
        }
    }
}

/// A list that holds no session used at a time has none to show for it.
proof fn lemma_used_at_none(sessions: Seq<AccountSessionView>, time: i64)
    requires
        forall|i: int| 0 <= i < sessions.len() ==> #[trigger] sessions[i].last_used_at != time,
    ensures
        used_at(sessions, time).len() == 0,
    decreases sessions.len(),
{
    reveal(Seq::filter);
    if sessions.len() > 0 {
        assert(sessions.last() == sessions[sessions.len() - 1]);
        lemma_used_at_none(sessions.drop_last(), time);
    }
}

/// Filtering a list from its front.
proof fn lemma_used_at_first(sessions: Seq<AccountSessionView>, time: i64)
    requires
        sessions.len() > 0,
    ensures
        used_at(sessions, time) == if sessions.first().last_used_at == time {
            seq![sessions.first()] + used_at(sessions.drop_first(), time)
        } else {
            used_at(sessions.drop_first(), time)
        },
    decreases sessions.len(),
{
    reveal(Seq::filter);
    if sessions.len() == 1 {
        assert(sessions.drop_first() =~= Seq::<AccountSessionView>::empty());
        assert(sessions.drop_last() =~= Seq::<AccountSessionView>::empty());
        assert(used_at(sessions.drop_first(), time) =~= Seq::<AccountSessionView>::empty());
        assert(used_at(sessions.drop_last(), time) =~= Seq::<AccountSessionView>::empty());
        assert(sessions.first() == sessions.last());
        assert(used_at(sessions, time) =~= if sessions.first().last_used_at == time {
            seq![sessions.first()] + used_at(sessions.drop_first(), time)
        } else {
            used_at(sessions.drop_first(), time)
        });
    } else {
        lemma_used_at_first(sessions.drop_last(), time);
        assert(sessions.drop_last().drop_first() =~= sessions.drop_first().drop_last());
        assert(sessions.drop_first().last() == sessions.last());
        assert(sessions.drop_last().first() == sessions.first());
        assert(used_at(sessions, time) =~= if sessions.first().last_used_at == time {
            seq![sessions.first()] + used_at(sessions.drop_first(), time)
        } else {
            used_at(sessions.drop_first(), time)
        });
    }
}

/// Only one list is in the order of last use and holds given sessions, those used at one time
/// in a given order.
pub proof fn lemma_latest_first_is_unique(
    sessions: Seq<AccountSessionView>,
    others: Seq<AccountSessionView>,
)
    requires
        is_latest_first(sessions),
        is_latest_first(others),
        same_at_each_time(sessions, others),
    ensures
        sessions == others,
    decreases sessions.len(),
{
    if sessions.len() == 0 {
        if others.len() > 0 {
            let time = others.first().last_used_at;
            lemma_used_at_none(sessions, time);
            lemma_used_at_first(others, time);
            assert(used_at(sessions, time) == used_at(others, time));
        }
        assert(sessions =~= others);
    } else {
        let time = sessions.first().last_used_at;
        lemma_used_at_first(sessions, time);
        assert(used_at(sessions, time) == used_at(others, time));
        if others.len() == 0 {
            lemma_used_at_none(others, time);
        }
        let other_time = others.first().last_used_at;
        lemma_used_at_first(others, other_time);
        assert(used_at(sessions, other_time) == used_at(others, other_time));
        if other_time < time {
            assert forall|i: int| 0 <= i < others.len() implies #[trigger] others[i].last_used_at
                != time by {
                if i > 0 {
                    assert(others[0].last_used_at >= others[i].last_used_at);
                }
            }
            lemma_used_at_none(others, time);
        } else if other_time > time {
            assert forall|i: int| 0 <= i < sessions.len() implies #[trigger] sessions[i].last_used_at
                != other_time by {
                if i > 0 {
                    assert(sessions[0].last_used_at >= sessions[i].last_used_at);
                }
            }
            lemma_used_at_none(sessions, other_time);
        }
        assert(time == other_time);
        assert(used_at(sessions, time)[0] == sessions.first());
        assert(used_at(others, time)[0] == others.first());
        let rest = sessions.drop_first();
        let other_rest = others.drop_first();
        assert forall|t: i64| #[trigger] used_at(rest, t) == used_at(other_rest, t) by {
            lemma_used_at_first(sessions, t);
            lemma_used_at_first(others, t);
            assert(used_at(sessions, t) == used_at(others, t));
            if t == time {
                assert(used_at(sessions, t).drop_first() =~= used_at(rest, t));
                assert(used_at(others, t).drop_first() =~= used_at(other_rest, t));
            }
        }
        assert forall|i: int, j: int| 0 <= i < j < rest.len() implies #[trigger] rest[i].last_used_at
            >= #[trigger] rest[j].last_used_at by {
            assert(sessions[i + 1].last_used_at >= sessions[j + 1].last_used_at);
        }
        assert forall|i: int, j: int| 0 <= i < j < other_rest.len() implies #[trigger] other_rest[i].last_used_at
            >= #[trigger] other_rest[j].last_used_at by {
            assert(others[i + 1].last_used_at >= others[j + 1].last_used_at);
        }
        lemma_latest_first_is_unique(rest, other_rest);
        assert(sessions =~= seq![sessions.first()] + rest);
        assert(others =~= seq![others.first()] + other_rest);
    }
}

} // verus!
