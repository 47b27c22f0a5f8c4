//! What holds of every run of an operation, whatever happens outside.
use crate::accounts::laws::{
    law_add_keeps_active_saved, law_add_keeps_ids_different, law_import_uses_a_saved_session,
    law_logout_keeps_active_saved, law_logout_keeps_ids_different, law_refresh_keeps_active_saved,
    law_someone_is_newest, law_switch_changes_one, law_switch_keeps_ids,
    law_switch_uses_a_saved_session, lemma_account_from, lemma_id_from,
};
use crate::accounts::operation::{
    imported, loaded, refreshed_at, refreshing, session_made, ActionView, EventView, IoErrorKind,
    OperationView, PhaseView, RequestView, TargetView,
};
use crate::accounts::response::response_of;
use crate::accounts::session::{
    claims_or_none, payload_of, refreshed, session_of, SessionsError,
};
use crate::accounts::store::{account_from, id_from, newest, CredentialView};
use crate::accounts::types::{
    no_claims, AccountsView, AuthView, ClaimsView, ResponseView, SessionView, StoredView,
};
use vstd::prelude::*;

verus! {

/// An event, and the id and the time that a session made then has.
pub struct Input {
    pub event: EventView,
    pub session_id: Seq<char>,
    pub now: i64,
}

/// A run of an operation so far: where it stands, what it has said to do, and the list of saved
/// sessions that it has loaded.
pub struct Run {
    pub operation: OperationView,
    pub actions: Seq<ActionView>,
    pub loaded: Option<StoredView>,
}

/// The list that an event completes loading, if it does.
pub open spec fn load_completed(phase: PhaseView, event: EventView) -> Option<StoredView> {
    match (phase, event) {
        (PhaseView::ReadingFile, EventView::FileRead(Ok(stored))) => Some(stored),
        (PhaseView::ReadingAuth(TargetView::Import), EventView::AuthRead(Ok(None))) => Some(
            StoredView { active_session_id: None, sessions: Seq::empty() },
        ),
        (PhaseView::SavingImport(stored), EventView::Done(Ok(_))) => Some(stored),
        _ => None,
    }
}

/// The run of a request over what happens outside.
pub open spec fn run(request: RequestView, inputs: Seq<Input>) -> Run
    decreases inputs.len(),
{
    if inputs.len() == 0 {
        Run {
            operation: OperationView { request, phase: PhaseView::ReadingFile },
            actions: seq![ActionView::ReadFile],
            loaded: None,
        }
    } else {
        let before = run(request, inputs.drop_last());
        let input = inputs.last();
        let next = before.operation.after(input.event, input.session_id, input.now);
        Run {
            operation: OperationView { request, phase: next.0 },
            actions: before.actions.push(next.1),
            loaded: if before.loaded is Some {
                before.loaded
            } else {
                load_completed(before.operation.phase, input.event)
            },
        }
    }
}

/// Whether each event is one that the operation waits for when it happens.
pub open spec fn fits(request: RequestView, inputs: Seq<Input>) -> bool
    decreases inputs.len(),
{
    inputs.len() > 0 ==> {
        &&& fits(request, inputs.drop_last())
        &&& run(request, inputs.drop_last()).operation.awaits(inputs.last().event)
    }
}

/// Whether an action gives the credential of the session that a list has in use, or takes it
/// away where it has none.
pub open spec fn credential_fits(stored: StoredView, action: ActionView) -> bool {
    match stored.active_session_id {
        Some(session_id) => exists|at: int|
            0 <= at < stored.sessions.len() && (#[trigger] stored.sessions[at]).session_id
                == session_id && action == ActionView::WriteAuth(stored.sessions[at].auth_json),
        None => action is ClearAuth,
    }
}

/// Whether an action writes the list that an answer shows.
pub open spec fn shows(action: ActionView, answer: ResponseView) -> bool {
    action matches ActionView::WriteFile(stored) && answer == response_of(stored)
}

/// What is known of a run in each phase.
spec fn standing(request: RequestView, run: Run) -> bool {
    let n = run.actions.len() as int;
    let last = run.actions[n - 1];
    &&& n > 0
    &&& run.operation.request == request
    &&& match run.operation.phase {
        PhaseView::ReadingFile => run.loaded is None,
        PhaseView::ReadingAuth(TargetView::Import) => run.loaded is None,
        PhaseView::ParsingClaims(TargetView::Import, _) => run.loaded is None,
        PhaseView::SavingImport(stored) => run.loaded is None && last == ActionView::WriteFile(
            stored,
        ),
        PhaseView::ReadingAuth(TargetView::Add(stored)) => request is Add && run.loaded == Some(
            stored,
        ),
        PhaseView::ParsingClaims(TargetView::Add(stored), _) => request is Add && run.loaded
            == Some(stored),
        PhaseView::FetchingAdded(stored, _) => request is Add && run.loaded == Some(stored),
        PhaseView::FetchingListed(stored, at) => {
            &&& 0 <= at
            &&& run.loaded matches Some(loaded) && stored.active_session_id
                == loaded.active_session_id
        },
        PhaseView::Revoking(stored) => {
            &&& request matches RequestView::Logout { session_id } && run.loaded matches Some(
                loaded,
            ) && loaded.has(session_id) && stored == loaded.without(session_id)
        },
        PhaseView::SavingAuth(stored) => run.loaded is Some && credential_fits(stored, last),
        PhaseView::SavingFile(stored) => {
            &&& last == ActionView::WriteFile(stored)
            &&& run.loaded matches Some(loaded)
                && (stored.active_session_id == loaded.active_session_id || (n > 1
                && credential_fits(stored, run.actions[n - 2])))
        },
        PhaseView::Finished => {
            &&& last is Finish
            &&& last matches ActionView::Finish(Ok(answer)) ==> run.loaded matches Some(loaded) && (
            answer == response_of(loaded) || (n > 1 && shows(run.actions[n - 2], answer)))
        },
    }
}

/// A run stands as its phase says.
proof fn lemma_standing(request: RequestView, inputs: Seq<Input>)
    requires
        fits(request, inputs),
    ensures
        standing(request, run(request, inputs)),
        run(request, inputs).actions.len() == inputs.len() + 1,
    decreases inputs.len(),
{
    if inputs.len() > 0 {
        lemma_standing(request, inputs.drop_last());
        let before = run(request, inputs.drop_last());
        let after = run(request, inputs);
        let n = after.actions.len() as int;
        let event = inputs.last().event;
        assert(after.actions[n - 2] == before.actions[n - 2]);
        match (before.operation.phase, event) {
            (PhaseView::FetchingAdded(stored, session), EventView::AccountsFetched(answer)) => {
                let added = refreshed(session, answer);
                lemma_account_from(stored.sessions, added, 0);
                let at = account_from(stored.sessions, added, 0);
                let switch = request->switch;
                let list = stored.with_added(added, switch);
                assert(list.sessions[at] == stored.identified(added));
                if switch {
                    assert(list.sessions[at].session_id == list.active_session_id->0);
                    assert(credential_fits(list, after.actions[n - 1]));
                }
            },
            (PhaseView::Revoking(stored), EventView::Done(_)) => {
                let session_id = request->Logout_session_id;
                let list = stored.with_successor(session_id);
                if stored.active_session_id == Some(session_id) {
                    if stored.sessions.len() > 0 {
                        law_someone_is_newest(stored.sessions);
                        let at = newest(stored.sessions);
                        assert(list.sessions[at].session_id == list.active_session_id->0);
                    }
                    assert(credential_fits(list, after.actions[n - 1]));
                }
            },
            _ => {
                if load_completed(before.operation.phase, event) is Some {
                    let stored = load_completed(before.operation.phase, event)->0;
                    if let RequestView::Switch { session_id, account_id } = request {
                        if stored.has(session_id) && stored.session(session_id).auth_json.tokens is Some {
                            let now = inputs.last().now;
                            lemma_id_from(stored.sessions, session_id, 0);
                            let at = id_from(stored.sessions, session_id, 0);
                            let list = stored.switched(session_id, account_id, now);
                            assert(list.sessions[at].session_id == session_id);
                            assert(credential_fits(list, after.actions[n - 1]));
                        }
                    }
                }
            },
        }
    }
}

/// Which session is in use changes in the saved list only after the credential in use has
/// become that session's: a list that is written after loading has in use what the list loaded
/// had, or the action before was to put the credential of the session in use (or to take the
/// credential away, where none is), and it succeeded.
pub proof fn law_credential_before_list(request: RequestView, inputs: Seq<Input>)
    requires
        fits(request, inputs),
    ensures
        ({
            let done = run(request, inputs);
            let n = done.actions.len() as int;
            done.actions.last() matches ActionView::WriteFile(stored) ==> done.loaded matches Some(
                loaded,
            ) ==> {
                ||| stored.active_session_id == loaded.active_session_id
                ||| {
                    &&& n > 1
                    &&& credential_fits(stored, done.actions[n - 2])
                    &&& inputs.last().event matches EventView::Done(Ok(_))
                }
            }
        }),
{
    lemma_standing(request, inputs);
    if inputs.len() > 0 {
        lemma_standing(request, inputs.drop_last());
        let before = run(request, inputs.drop_last());
        let done = run(request, inputs);
        let n = done.actions.len() as int;
        assert(done.actions[n - 2] == before.actions[n - 2]);
    }
}

/// A request that succeeds is answered with the list that was saved last, and saving it
/// succeeded; a list that is only shown is answered as it was loaded.
pub proof fn law_answer_is_what_is_saved(request: RequestView, inputs: Seq<Input>)
    requires
        fits(request, inputs),
    ensures
        ({
            let done = run(request, inputs);
            let n = done.actions.len() as int;
            done.actions.last() matches ActionView::Finish(Ok(answer)) ==> if request
                == (RequestView::List { refresh: false }) {
                done.loaded matches Some(loaded) && answer == response_of(loaded)
            } else {
                &&& n > 1
                &&& shows(done.actions[n - 2], answer)
                &&& inputs.last().event matches EventView::Done(Ok(_))
            }
        }),
{
    lemma_standing(request, inputs);
    if inputs.len() > 0 {
        lemma_standing(request, inputs.drop_last());
        lemma_list_only_shows(request, inputs.drop_last());
        let before = run(request, inputs.drop_last());
        let done = run(request, inputs);
        let n = done.actions.len() as int;
        assert(done.actions[n - 2] == before.actions[n - 2]);
    }
}

/// A list that is only shown is not saved: the operation never comes to saving it.
proof fn lemma_list_only_shows(request: RequestView, inputs: Seq<Input>)
    requires
        fits(request, inputs),
    ensures
        request == (RequestView::List { refresh: false }) ==> !(run(
            request,
            inputs,
        ).operation.phase is SavingFile) && !(run(request, inputs).operation.phase is SavingAuth)
            && !(run(request, inputs).operation.phase is FetchingListed) && !(run(
            request,
            inputs,
        ).operation.phase is FetchingAdded) && !(run(request, inputs).operation.phase is Revoking),
    decreases inputs.len(),
{
    if inputs.len() > 0 {
        lemma_list_only_shows(request, inputs.drop_last());
        lemma_standing(request, inputs.drop_last());
    }
}

/// Showing the saved sessions after an operation shows what the operation answered: the list
/// that was saved, read back, gives the same answer.
pub proof fn law_saved_list_is_shown_again(
    request: RequestView,
    inputs: Seq<Input>,
    saved: StoredView,
    session_id: Seq<char>,
    now: i64,
)
    requires
        fits(request, inputs),
        request != (RequestView::List { refresh: false }),
        run(request, inputs).actions.last() matches ActionView::Finish(Ok(_)),
        run(request, inputs).actions[inputs.len() - 1] == ActionView::WriteFile(saved),
    ensures
        ({
            let again = seq![
                Input { event: EventView::FileRead(Ok(saved)), session_id, now },
            ];
            let list = RequestView::List { refresh: false };
            &&& fits(list, again)
            &&& run(list, again).actions.last() == run(request, inputs).actions.last()
        }),
{
    law_answer_is_what_is_saved(request, inputs);
    lemma_standing(request, inputs);
    let again = seq![Input { event: EventView::FileRead(Ok(saved)), session_id, now }];
    let list = RequestView::List { refresh: false };
    assert(again.drop_last() =~= Seq::<Input>::empty());
    reveal_with_fuel(run, 2);
    reveal_with_fuel(fits, 2);
    assert(again.last().event == EventView::FileRead(Ok(saved)));
}

/// Whether every list that was read has a saved session in use, or none.
pub open spec fn reads_sound_lists(inputs: Seq<Input>) -> bool {
    forall|i: int|
        0 <= i < inputs.len() ==> (#[trigger] inputs[i].event matches EventView::FileRead(
            Ok(stored),
        ) ==> stored.active_is_saved())
}

/// The list that a phase carries has a saved session in use, or none.
spec fn sound_phase(request: RequestView, run: Run) -> bool {
    &&& run.loaded matches Some(loaded) ==> loaded.active_is_saved()
    &&& match run.operation.phase {
        PhaseView::SavingImport(stored) => stored.active_is_saved(),
        PhaseView::FetchingListed(stored, _) => stored.active_is_saved(),
        PhaseView::SavingAuth(stored) => stored.active_is_saved(),
        PhaseView::SavingFile(stored) => stored.active_is_saved(),
        _ => true,
    }
    &&& run.actions.last() matches ActionView::WriteFile(stored) ==> stored.active_is_saved()
}

proof fn lemma_sound_phase(request: RequestView, inputs: Seq<Input>)
    requires
        fits(request, inputs),
        reads_sound_lists(inputs),
    ensures
        sound_phase(request, run(request, inputs)),
    decreases inputs.len(),
{
    if inputs.len() > 0 {
        let front = inputs.drop_last();
        assert forall|i: int| 0 <= i < front.len() implies (
        #[trigger] front[i].event matches EventView::FileRead(Ok(stored))
            ==> stored.active_is_saved()) by {
            assert(front[i] == inputs[i]);
        }
        lemma_sound_phase(request, front);
        lemma_standing(request, front);
        let before = run(request, front);
        let input = inputs.last();
        assert(inputs[inputs.len() - 1] == input);
        match (before.operation.phase, input.event) {
            (PhaseView::FetchingAdded(stored, session), EventView::AccountsFetched(answer)) => {
                law_add_keeps_active_saved(stored, refreshed(session, answer), request->switch);
            },
            (PhaseView::FetchingListed(stored, at), EventView::AccountsFetched(answer)) => {
                law_refresh_keeps_active_saved(stored, at, answer);
            },
            (PhaseView::Revoking(_), EventView::Done(_)) => {
                law_logout_keeps_active_saved(before.loaded->0, request->Logout_session_id);
            },
            (PhaseView::ReadingAuth(TargetView::Import), EventView::AuthRead(Ok(Some(auth)))) => {
                if auth.tokens is Some {
                    law_import_uses_a_saved_session(
                        session_of(auth, auth.tokens->0, no_claims(), input.session_id, input.now),
                    );
                }
            },
            (PhaseView::ParsingClaims(TargetView::Import, auth), EventView::ClaimsParsed(parsed)) => {
                if auth.tokens is Some {
                    law_import_uses_a_saved_session(
                        session_of(
                            auth,
                            auth.tokens->0,
                            claims_or_none(parsed),
                            input.session_id,
                            input.now,
                        ),
                    );
                }
            },
            _ => {
                if load_completed(before.operation.phase, input.event) is Some {
                    let stored = load_completed(before.operation.phase, input.event)->0;
                    if let RequestView::Switch { session_id, account_id } = request {
                        if stored.has(session_id) {
                            law_switch_uses_a_saved_session(
                                stored,
                                session_id,
                                account_id,
                                input.now,
                            );
                        }
                    }
                }
            },
        }
    }
}

/// Whatever happens, a list that is written has a saved session in use, or none, if that holds
/// of the lists that were read.
pub proof fn law_written_lists_are_sound(request: RequestView, inputs: Seq<Input>)
    requires
        fits(request, inputs),
        reads_sound_lists(inputs),
    ensures
        run(request, inputs).actions.last() matches ActionView::WriteFile(stored)
            ==> stored.active_is_saved(),
{
    lemma_sound_phase(request, inputs);
}

/// Whether an action only looks: it changes neither a credential nor what a token is worth.
pub open spec fn only_looks(action: ActionView) -> bool {
    !(action is WriteAuth) && !(action is ClearAuth) && !(action is RevokeTokens)
}

/// Whether a run has got no further than to look, and has written no list where it found one.
spec fn untouched(run: Run, found: bool) -> bool {
    &&& forall|k: int| 0 <= k < run.actions.len() ==> only_looks(#[trigger] run.actions[k])
    &&& found ==> forall|k: int|
        0 <= k < run.actions.len() ==> !(#[trigger] run.actions[k] is WriteFile)
}

/// Whether a request has been refused.
pub open spec fn refused(action: ActionView) -> bool {
    action matches ActionView::Finish(Err(error)) && error != SessionsError::Io
}

/// Whether the file with the saved sessions was there.
pub open spec fn found_file(inputs: Seq<Input>) -> bool {
    inputs.len() > 0 && (inputs[0].event matches EventView::FileRead(Ok(_)))
}

proof fn lemma_untouched(request: RequestView, inputs: Seq<Input>)
    requires
        fits(request, inputs),
    ensures
        ({
            let done = run(request, inputs);
            let phase = done.operation.phase;
            let importing = phase is SavingImport || (phase matches PhaseView::ReadingAuth(target)
                && target is Import) || (phase matches PhaseView::ParsingClaims(target, _)
                && target is Import);
            &&& inputs.len() > 0 ==> !(phase is ReadingFile)
            &&& found_file(inputs) ==> !importing
            &&& phase is ReadingFile || phase is ReadingAuth || phase is ParsingClaims || phase is
                SavingImport || refused(done.actions.last()) ==> untouched(
                done,
                found_file(inputs),
            )
        }),
    decreases inputs.len(),
{
    if inputs.len() > 0 {
        let front = inputs.drop_last();
        lemma_untouched(request, front);
        lemma_standing(request, front);
        let before = run(request, front);
        let done = run(request, inputs);
        if front.len() > 0 {
            assert(front[0] == inputs[0]);
        } else {
            assert(inputs[0] == inputs.last());
        }
        assert forall|k: int| 0 <= k < done.actions.len() - 1 implies #[trigger] done.actions[k]
            == before.actions[k] by {}
    }
}

/// A request that is refused has changed nothing: no credential was written or cleared and no
/// token revoked, and where there was a file with saved sessions it was not written.
pub proof fn law_refused_request_changes_nothing(request: RequestView, inputs: Seq<Input>)
    requires
        fits(request, inputs),
        refused(run(request, inputs).actions.last()),
    ensures
        forall|k: int|
            0 <= k < run(request, inputs).actions.len() ==> only_looks(
                #[trigger] run(request, inputs).actions[k],
            ),
        found_file(inputs) ==> forall|k: int|
            0 <= k < run(request, inputs).actions.len() ==> !(#[trigger] run(
                request,
                inputs,
            ).actions[k] is WriteFile),
{
    lemma_untouched(request, inputs);
}

/// How far a phase is from the end: first by its kind, then by the sessions that are left to
/// refresh.
pub open spec fn distance(phase: PhaseView) -> (int, int) {
    match phase {
        PhaseView::ReadingFile => (9, 0),
        PhaseView::ReadingAuth(TargetView::Import) => (8, 0),
        PhaseView::ParsingClaims(TargetView::Import, _) => (7, 0),
        PhaseView::SavingImport(_) => (6, 0),
        PhaseView::ReadingAuth(TargetView::Add(_)) => (5, 0),
        PhaseView::ParsingClaims(TargetView::Add(_), _) => (4, 0),
        PhaseView::FetchingAdded(_, _) => (3, 0),
        PhaseView::FetchingListed(stored, at) => (
            3,
            if at < stored.sessions.len() {
                stored.sessions.len() - at
            } else {
                0
            },
        ),
        PhaseView::Revoking(_) => (3, 0),
        PhaseView::SavingAuth(_) => (2, 0),
        PhaseView::SavingFile(_) => (1, 0),
        PhaseView::Finished => (0, 0),
    }
}

/// Every event that an operation waits for brings it nearer to its end, and it is at its end
/// exactly when it answers: an operation always comes to an end.
pub proof fn law_operation_comes_to_an_end(
    operation: OperationView,
    event: EventView,
    session_id: Seq<char>,
    now: i64,
)
    requires
        operation.awaits(event),
        operation.phase matches PhaseView::FetchingListed(_, at) ==> 0 <= at,
    ensures
        ({
            let next = operation.after(event, session_id, now);
            let here = distance(operation.phase);
            let there = distance(next.0);
            &&& 0 <= there.0
            &&& 0 <= there.1
            &&& there.0 < here.0 || (there.0 == here.0 && there.1 < here.1)
            &&& next.0 is Finished <==> next.1 is Finish
        }),
{
}

/// Going on by one input.
proof fn lemma_run_push(request: RequestView, inputs: Seq<Input>, input: Input)
    requires
        fits(request, inputs),
        run(request, inputs).operation.awaits(input.event),
    ensures
        fits(request, inputs.push(input)),
        ({
            let before = run(request, inputs);
            let next = before.operation.after(input.event, input.session_id, input.now);
            let done = run(request, inputs.push(input));
            &&& done.operation == (OperationView { request, phase: next.0 })
            &&& done.actions == before.actions.push(next.1)
        }),
{
    assert(inputs.push(input).drop_last() =~= inputs);
}

/// Whether what happens outside loads a list: the last event completes loading it.
pub open spec fn loads(request: RequestView, loading: Seq<Input>, stored: StoredView) -> bool {
    &&& loading.len() > 0
    &&& fits(request, loading)
    &&& load_completed(
        run(request, loading.drop_last()).operation.phase,
        loading.last().event,
    ) == Some(stored)
}

/// What is to be done to load a list.
pub open spec fn loading_actions(request: RequestView, loading: Seq<Input>) -> Seq<ActionView> {
    run(request, loading.drop_last()).actions
}

/// Once the list has been loaded, the request is served.
proof fn lemma_loads(request: RequestView, loading: Seq<Input>, stored: StoredView)
    requires
        loads(request, loading, stored),
    ensures
        ({
            let next = loaded(request, stored, loading.last().now);
            let done = run(request, loading);
            &&& done.operation == (OperationView { request, phase: next.0 })
            &&& done.actions == loading_actions(request, loading).push(next.1)
            &&& done.actions.drop_last() == loading_actions(request, loading)
        }),
{
    lemma_standing(request, loading.drop_last());
    assert(run(request, loading).actions.drop_last() =~= loading_actions(request, loading));
}

/// The ways to load a list: it is read from its file; or there is no file, and without a
/// credential in use it is empty, while one with tokens is saved as its only session, in use.
pub proof fn law_ways_to_load(
    request: RequestView,
    stored: StoredView,
    auth: AuthView,
    parsed: Option<ClaimsView>,
    fresh_id: Seq<char>,
    now: i64,
)
    ensures
        ({
            let read = Input { event: EventView::FileRead(Ok(stored)), session_id: fresh_id, now };
            let missing = Input {
                event: EventView::FileRead(Err(IoErrorKind::NotFound)),
                session_id: fresh_id,
                now,
            };
            let nobody = Input { event: EventView::AuthRead(Ok(None)), session_id: fresh_id, now };
            let done = Input { event: EventView::Done(Ok(())), session_id: fresh_id, now };
            let empty = StoredView { active_session_id: None, sessions: Seq::empty() };
            let list = imported(credential_session(auth, parsed, fresh_id, now));
            let importing = seq![missing] + credential_inputs(auth, parsed, fresh_id, now).push(
                done,
            );
            &&& loads(request, seq![read], stored)
            &&& loading_actions(request, seq![read]) == seq![ActionView::ReadFile]
            &&& loads(request, seq![missing, nobody], empty)
            &&& loading_actions(request, seq![missing, nobody]) == seq![
                ActionView::ReadFile,
                ActionView::ReadAuth,
            ]
            &&& auth.tokens is Some ==> {
                &&& loads(request, importing, list)
                &&& loading_actions(request, importing) == seq![ActionView::ReadFile]
                    + credential_actions(auth).push(ActionView::WriteFile(list))
            }
        }),
{
    let read = Input { event: EventView::FileRead(Ok(stored)), session_id: fresh_id, now };
    let missing = Input {
        event: EventView::FileRead(Err(IoErrorKind::NotFound)),
        session_id: fresh_id,
        now,
    };
    let nobody = Input { event: EventView::AuthRead(Ok(None)), session_id: fresh_id, now };
    let done = Input { event: EventView::Done(Ok(())), session_id: fresh_id, now };
    let none = Seq::<Input>::empty();
    lemma_run_push(request, none, read);
    assert(seq![read] =~= none.push(read));
    assert(seq![read].drop_last() =~= none);
    lemma_run_push(request, none, missing);
    lemma_run_push(request, none.push(missing), nobody);
    assert(seq![missing, nobody] =~= none.push(missing).push(nobody));
    assert(seq![missing, nobody].drop_last() =~= none.push(missing));
    assert(run(request, none.push(missing)).actions =~= seq![
        ActionView::ReadFile,
        ActionView::ReadAuth,
    ]);
    if auth.tokens is Some {
        let list = imported(credential_session(auth, parsed, fresh_id, now));
        let first = none.push(missing);
        lemma_credential_run(request, first, TargetView::Import, auth, parsed, fresh_id, now);
        let second = first + credential_inputs(auth, parsed, fresh_id, now);
        lemma_run_push(request, second, done);
        let importing = seq![missing] + credential_inputs(auth, parsed, fresh_id, now).push(done);
        assert(importing =~= second.push(done));
        assert(importing.drop_last() =~= second);
        assert(run(request, second).actions =~= seq![ActionView::ReadFile] + credential_actions(
            auth,
        ).push(ActionView::WriteFile(list)));
    }
}

/// What a request for a session that is not saved, or that has no tokens to switch to, is
/// answered, as soon as the list has been loaded.
pub proof fn law_refusals(request: RequestView, loading: Seq<Input>, stored: StoredView)
    requires
        loads(request, loading, stored),
    ensures
        ({
            let refusal = match request {
                RequestView::Logout { session_id } => if stored.has(session_id) {
                    None
                } else {
                    Some(SessionsError::SessionNotFound)
                },
                RequestView::Switch { session_id, .. } => if !stored.has(session_id) {
                    Some(SessionsError::SessionNotFound)
                } else if stored.session(session_id).auth_json.tokens is None {
                    Some(SessionsError::NoTokens)
                } else {
                    None
                },
                _ => None,
            };
            refusal matches Some(error) ==> run(request, loading).actions == loading_actions(
                request,
                loading,
            ).push(ActionView::Finish(Err(error)))
        }),
{
    lemma_loads(request, loading, stored);
}

/// Showing the saved sessions as they are does nothing but load the list and answer with it.
pub proof fn law_list_run(loading: Seq<Input>, stored: StoredView)
    requires
        loads(RequestView::List { refresh: false }, loading, stored),
    ensures
        ({
            let request = RequestView::List { refresh: false };
            run(request, loading).actions == loading_actions(request, loading).push(
                ActionView::Finish(Ok(response_of(stored))),
            )
        }),
{
    lemma_loads(RequestView::List { refresh: false }, loading, stored);
}

/// Where no list was ever saved and the credential in use has no tokens, every request is refused.
pub proof fn law_first_list_needs_tokens(
    request: RequestView,
    auth: AuthView,
    fresh_id: Seq<char>,
    now: i64,
)
    requires
        auth.tokens is None,
    ensures
        ({
            let inputs = seq![
                Input {
                    event: EventView::FileRead(Err(IoErrorKind::NotFound)),
                    session_id: fresh_id,
                    now,
                },
                Input { event: EventView::AuthRead(Ok(Some(auth))), session_id: fresh_id, now },
            ];
            &&& fits(request, inputs)
            &&& run(request, inputs).actions == seq![
                ActionView::ReadFile,
                ActionView::ReadAuth,
                ActionView::Finish(Err(SessionsError::NoActiveAuth)),
            ]
        }),
{
    let missing = Input {
        event: EventView::FileRead(Err(IoErrorKind::NotFound)),
        session_id: fresh_id,
        now,
    };
    let found = Input { event: EventView::AuthRead(Ok(Some(auth))), session_id: fresh_id, now };
    let first = Seq::<Input>::empty().push(missing);
    lemma_run_push(request, Seq::empty(), missing);
    lemma_run_push(request, first, found);
    assert(first.push(found) =~= seq![missing, found]);
    assert(run(request, first.push(found)).actions =~= seq![
        ActionView::ReadFile,
        ActionView::ReadAuth,
        ActionView::Finish(Err(SessionsError::NoActiveAuth)),
    ]);
}

/// What fails outside ends an operation at once, with the failure as its answer, unless it was
/// that tokens could not be revoked, or that there is no file.
pub proof fn law_failure_ends_an_operation(
    operation: OperationView,
    event: EventView,
    session_id: Seq<char>,
    now: i64,
)
    requires
        operation.awaits(event),
        !(operation.phase is Revoking),
        ({
            ||| event == EventView::FileRead(Err(IoErrorKind::Other))
            ||| (event matches EventView::AuthRead(Err(_)))
            ||| (event matches EventView::Done(Err(_)))
        }),
    ensures
        operation.after(event, session_id, now).0 is Finished,
        operation.after(event, session_id, now).1 == ActionView::Finish(Err(SessionsError::Io)),
{
}

/// An operation waits for what it said to do, and for nothing else; once it has answered, for
/// nothing.
pub proof fn law_operation_waits_for_what_it_said(
    request: RequestView,
    inputs: Seq<Input>,
    event: EventView,
)
    requires
        fits(request, inputs),
    ensures
        run(request, inputs).operation.awaits(event) <==> match run(
            request,
            inputs,
        ).actions.last() {
            ActionView::ReadFile => event is FileRead,
            ActionView::ReadAuth => event is AuthRead,
            ActionView::ParseClaims(_) => event is ClaimsParsed,
            ActionView::FetchAccounts(_) => event is AccountsFetched,
            ActionView::RevokeTokens(_) => event is Done,
            ActionView::WriteAuth(_) => event is Done,
            ActionView::ClearAuth => event is Done,
            ActionView::WriteFile(_) => event is Done,
            ActionView::Finish(_) => false,
        },
{
    if inputs.len() > 0 {
        lemma_standing(request, inputs.drop_last());
    }
}

/// Without a credential that has tokens there is nothing to add: the request is refused once the
/// list has been loaded and the credential has been read.
pub proof fn law_add_needs_a_credential(
    loading: Seq<Input>,
    stored: StoredView,
    auth: Option<AuthView>,
    switch: bool,
    fresh_id: Seq<char>,
    now: i64,
)
    requires
        loads(RequestView::Add { switch }, loading, stored),
        auth matches Some(auth) ==> auth.tokens is None,
    ensures
        ({
            let request = RequestView::Add { switch };
            let found = Input { event: EventView::AuthRead(Ok(auth)), session_id: fresh_id, now };
            let inputs = loading.push(found);
            &&& fits(request, inputs)
            &&& run(request, inputs).actions == loading_actions(request, loading) + seq![
                ActionView::ReadAuth,
                ActionView::Finish(Err(SessionsError::NoActiveAuth)),
            ]
        }),
{
    let request = RequestView::Add { switch };
    let found = Input { event: EventView::AuthRead(Ok(auth)), session_id: fresh_id, now };
    lemma_loads(request, loading, stored);
    lemma_run_push(request, loading, found);
    assert(run(request, loading.push(found)).actions =~= loading_actions(request, loading) + seq![
        ActionView::ReadAuth,
        ActionView::Finish(Err(SessionsError::NoActiveAuth)),
    ]);
}

/// Switching to a saved session with tokens does, where nothing fails outside, exactly this:
/// load the list, write the credential, write the list, answer.
pub proof fn law_switch_run(
    loading: Seq<Input>,
    stored: StoredView,
    session_id: Seq<char>,
    account_id: Seq<char>,
    fresh_id: Seq<char>,
    now: i64,
)
    requires
        loads(RequestView::Switch { session_id, account_id }, loading, stored),
        stored.has(session_id),
        stored.session(session_id).auth_json.tokens is Some,
    ensures
        ({
            let request = RequestView::Switch { session_id, account_id };
            let after = stored.switched(session_id, account_id, loading.last().now);
            let done = Input { event: EventView::Done(Ok(())), session_id: fresh_id, now };
            let inputs = loading.push(done).push(done);
            &&& fits(request, inputs)
            &&& run(request, inputs).actions == loading_actions(request, loading) + seq![
                ActionView::WriteAuth(after.session(session_id).auth_json),
                ActionView::WriteFile(after),
                ActionView::Finish(Ok(response_of(after))),
            ]
        }),
{
    let request = RequestView::Switch { session_id, account_id };
    let after = stored.switched(session_id, account_id, loading.last().now);
    let done = Input { event: EventView::Done(Ok(())), session_id: fresh_id, now };
    law_switch_changes_one(stored, session_id, account_id, loading.last().now);
    lemma_loads(request, loading, stored);
    lemma_run_push(request, loading, done);
    lemma_run_push(request, loading.push(done), done);
    assert(run(request, loading.push(done).push(done)).actions =~= loading_actions(
        request,
        loading,
    ) + seq![
        ActionView::WriteAuth(after.session(session_id).auth_json),
        ActionView::WriteFile(after),
        ActionView::Finish(Ok(response_of(after))),
    ]);
}

/// Logging out of a saved session goes on whether or not its tokens could be revoked.
pub proof fn law_logout_goes_on_without_revocation(
    loading: Seq<Input>,
    stored: StoredView,
    session_id: Seq<char>,
    revoked: Result<(), IoErrorKind>,
    other: Result<(), IoErrorKind>,
    fresh_id: Seq<char>,
    now: i64,
)
    requires
        loads(RequestView::Logout { session_id }, loading, stored),
        stored.has(session_id),
    ensures
        ({
            let request = RequestView::Logout { session_id };
            let one = loading.push(
                Input { event: EventView::Done(revoked), session_id: fresh_id, now },
            );
            let two = loading.push(
                Input { event: EventView::Done(other), session_id: fresh_id, now },
            );
            let rest = stored.without(session_id);
            &&& fits(request, one)
            &&& run(request, one).actions == run(request, two).actions
            &&& run(request, one).actions.last() == match rest.successor_credential(session_id) {
                CredentialView::Keep => ActionView::WriteFile(rest.with_successor(session_id)),
                CredentialView::Write(auth) => ActionView::WriteAuth(auth),
                CredentialView::Clear => ActionView::ClearAuth,
            }
        }),
{
    let request = RequestView::Logout { session_id };
    let a = Input { event: EventView::Done(revoked), session_id: fresh_id, now };
    let b = Input { event: EventView::Done(other), session_id: fresh_id, now };
    lemma_loads(request, loading, stored);
    lemma_run_push(request, loading, a);
    lemma_run_push(request, loading, b);
}

/// What happens outside while a credential is read and its claims, if its token carries any.
pub open spec fn credential_inputs(
    auth: AuthView,
    parsed: Option<ClaimsView>,
    fresh_id: Seq<char>,
    now: i64,
) -> Seq<Input> {
    let read = Input { event: EventView::AuthRead(Ok(Some(auth))), session_id: fresh_id, now };
    let said = Input { event: EventView::ClaimsParsed(parsed), session_id: fresh_id, now };
    if payload_of(auth.tokens->0.access_token) is Some {
        seq![read, said]
    } else {
        seq![read]
    }
}

/// What is to be done to read a credential and its claims, if its token carries any.
pub open spec fn credential_actions(auth: AuthView) -> Seq<ActionView> {
    match payload_of(auth.tokens->0.access_token) {
        Some(payload) => seq![ActionView::ReadAuth, ActionView::ParseClaims(payload)],
        None => seq![ActionView::ReadAuth],
    }
}

/// The session that a credential makes, given what could be read of its claims.
pub open spec fn credential_session(
    auth: AuthView,
    parsed: Option<ClaimsView>,
    fresh_id: Seq<char>,
    now: i64,
) -> SessionView {
    let claims = if payload_of(auth.tokens->0.access_token) is Some {
        claims_or_none(parsed)
    } else {
        no_claims()
    };
    session_of(auth, auth.tokens->0, claims, fresh_id, now)
}

/// Going on by the inputs of a credential, where one is to be read.
proof fn lemma_credential_run(
    request: RequestView,
    inputs: Seq<Input>,
    target: TargetView,
    auth: AuthView,
    parsed: Option<ClaimsView>,
    fresh_id: Seq<char>,
    now: i64,
)
    requires
        fits(request, inputs),
        run(request, inputs).operation == (OperationView {
            request,
            phase: PhaseView::ReadingAuth(target),
        }),
        run(request, inputs).actions.len() > 0,
        run(request, inputs).actions.last() is ReadAuth,
        auth.tokens is Some,
    ensures
        ({
            let all = inputs + credential_inputs(auth, parsed, fresh_id, now);
            let next = session_made(target, credential_session(auth, parsed, fresh_id, now));
            let before = run(request, inputs);
            let done = run(request, all);
            &&& fits(request, all)
            &&& done.operation == (OperationView { request, phase: next.0 })
            &&& done.actions == before.actions.drop_last() + credential_actions(auth).push(next.1)
        }),
{
    let read = Input { event: EventView::AuthRead(Ok(Some(auth))), session_id: fresh_id, now };
    let said = Input { event: EventView::ClaimsParsed(parsed), session_id: fresh_id, now };
    let all = inputs + credential_inputs(auth, parsed, fresh_id, now);
    let next = session_made(target, credential_session(auth, parsed, fresh_id, now));
    let before = run(request, inputs);
    lemma_run_push(request, inputs, read);
    if payload_of(auth.tokens->0.access_token) is Some {
        lemma_run_push(request, inputs.push(read), said);
        assert(all =~= inputs.push(read).push(said));
    } else {
        assert(all =~= inputs.push(read));
    }
    assert(run(request, all).actions =~= before.actions.drop_last() + credential_actions(
        auth,
    ).push(next.1));
}

/// Adding the credential in use does, where nothing fails outside, exactly this: load the list,
/// read the credential, read the claims of the token if it carries any, ask the backend, write the
/// credential if the session is to be used, write the list with the session in it, answer.
pub proof fn law_add_run(
    loading: Seq<Input>,
    stored: StoredView,
    auth: AuthView,
    parsed: Option<ClaimsView>,
    answer: Option<AccountsView>,
    switch: bool,
    fresh_id: Seq<char>,
    now: i64,
)
    requires
        loads(RequestView::Add { switch }, loading, stored),
        auth.tokens is Some,
    ensures
        ({
            let request = RequestView::Add { switch };
            let made = credential_session(auth, parsed, fresh_id, now);
            let session = refreshed(made, answer);
            let after = stored.with_added(session, switch);
            let fetched = Input {
                event: EventView::AccountsFetched(answer),
                session_id: fresh_id,
                now,
            };
            let done = Input { event: EventView::Done(Ok(())), session_id: fresh_id, now };
            let asking = loading + credential_inputs(auth, parsed, fresh_id, now).push(fetched);
            let asked = loading_actions(request, loading) + credential_actions(auth).push(
                ActionView::FetchAccounts(auth),
            );
            let inputs = if switch {
                asking.push(done).push(done)
            } else {
                asking.push(done)
            };
            let writing = if switch {
                asked.push(ActionView::WriteAuth(session.auth_json))
            } else {
                asked
            };
            &&& fits(request, inputs)
            &&& run(request, inputs).actions == writing.push(ActionView::WriteFile(after)).push(
                ActionView::Finish(Ok(response_of(after))),
            )
        }),
{
    let request = RequestView::Add { switch };
    let fetched = Input { event: EventView::AccountsFetched(answer), session_id: fresh_id, now };
    let done = Input { event: EventView::Done(Ok(())), session_id: fresh_id, now };
    lemma_loads(request, loading, stored);
    lemma_credential_run(request, loading, TargetView::Add(stored), auth, parsed, fresh_id, now);
    let second = loading + credential_inputs(auth, parsed, fresh_id, now);
    let asking = second.push(fetched);
    lemma_run_push(request, second, fetched);
    lemma_run_push(request, asking, done);
    if switch {
        lemma_run_push(request, asking.push(done), done);
    }
    assert(asking =~= loading + credential_inputs(auth, parsed, fresh_id, now).push(fetched));
}

/// Where no list was ever saved, the credential in use is saved as the first session, in use,
/// before anything else; showing the sessions then shows it.
pub proof fn law_first_list_holds_the_credential(
    auth: AuthView,
    parsed: Option<ClaimsView>,
    fresh_id: Seq<char>,
    now: i64,
)
    requires
        auth.tokens is Some,
    ensures
        ({
            let request = RequestView::List { refresh: false };
            let list = imported(credential_session(auth, parsed, fresh_id, now));
            let missing = Input {
                event: EventView::FileRead(Err(IoErrorKind::NotFound)),
                session_id: fresh_id,
                now,
            };
            let done = Input { event: EventView::Done(Ok(())), session_id: fresh_id, now };
            let inputs = seq![missing] + credential_inputs(auth, parsed, fresh_id, now).push(done);
            &&& fits(request, inputs)
            &&& run(request, inputs).actions == seq![ActionView::ReadFile] + credential_actions(
                auth,
            ).push(ActionView::WriteFile(list)).push(ActionView::Finish(Ok(response_of(list))))
        }),
{
    let request = RequestView::List { refresh: false };
    let missing = Input {
        event: EventView::FileRead(Err(IoErrorKind::NotFound)),
        session_id: fresh_id,
        now,
    };
    let done = Input { event: EventView::Done(Ok(())), session_id: fresh_id, now };
    let list = imported(credential_session(auth, parsed, fresh_id, now));
    let first = Seq::<Input>::empty().push(missing);
    lemma_run_push(request, Seq::empty(), missing);
    lemma_credential_run(request, first, TargetView::Import, auth, parsed, fresh_id, now);
    let second = first + credential_inputs(auth, parsed, fresh_id, now);
    lemma_run_push(request, second, done);
    assert(second.push(done) =~= seq![missing] + credential_inputs(
        auth,
        parsed,
        fresh_id,
        now,
    ).push(done));
    assert(run(request, second.push(done)).actions =~= seq![ActionView::ReadFile]
        + credential_actions(auth).push(ActionView::WriteFile(list)).push(
        ActionView::Finish(Ok(response_of(list))),
    ));
}

/// The list with its first `n` sessions refreshed, each by its answer.
pub open spec fn refreshed_up_to(
    stored: StoredView,
    answers: Seq<Option<AccountsView>>,
    n: int,
) -> StoredView {
    StoredView {
        sessions: Seq::new(
            stored.sessions.len(),
            |i: int|
                if i < n {
                    refreshed(stored.sessions[i], answers[i])
                } else {
                    stored.sessions[i]
                },
        ),
        ..stored
    }
}

/// What happens outside while a list is loaded and its first `n` sessions are refreshed.
pub open spec fn refreshing_inputs(
    loading: Seq<Input>,
    answers: Seq<Option<AccountsView>>,
    n: int,
    fresh_id: Seq<char>,
    now: i64,
) -> Seq<Input> {
    loading + Seq::new(
        n as nat,
        |i: int|
            Input { event: EventView::AccountsFetched(answers[i]), session_id: fresh_id, now },
    )
}

/// Going through the sessions, up to the one at `n`.
proof fn lemma_refreshing(
    loading: Seq<Input>,
    stored: StoredView,
    answers: Seq<Option<AccountsView>>,
    n: int,
    fresh_id: Seq<char>,
    now: i64,
)
    requires
        loads(RequestView::List { refresh: true }, loading, stored),
        0 <= n <= stored.sessions.len(),
        answers.len() == stored.sessions.len(),
    ensures
        ({
            let request = RequestView::List { refresh: true };
            let inputs = refreshing_inputs(loading, answers, n, fresh_id, now);
            let next = refreshing(refreshed_up_to(stored, answers, n), n);
            let asked = Seq::new(
                n as nat,
                |i: int| ActionView::FetchAccounts(stored.sessions[i].auth_json),
            );
            &&& fits(request, inputs)
            &&& run(request, inputs).operation == (OperationView { request, phase: next.0 })
            &&& run(request, inputs).actions == (loading_actions(request, loading) + asked).push(
                next.1,
            )
        }),
    decreases n,
{
    let request = RequestView::List { refresh: true };
    let inputs = refreshing_inputs(loading, answers, n, fresh_id, now);
    let asked = Seq::new(
        n as nat,
        |i: int| ActionView::FetchAccounts(stored.sessions[i].auth_json),
    );
    if n == 0 {
        lemma_loads(request, loading, stored);
        assert(inputs =~= loading);
        assert(loading_actions(request, loading) + asked =~= loading_actions(request, loading));
        assert(refreshed_up_to(stored, answers, 0).sessions =~= stored.sessions);
    } else {
        lemma_refreshing(loading, stored, answers, n - 1, fresh_id, now);
        let front = refreshing_inputs(loading, answers, n - 1, fresh_id, now);
        let answer = Input {
            event: EventView::AccountsFetched(answers[n - 1]),
            session_id: fresh_id,
            now,
        };
        assert(inputs =~= front.push(answer));
        lemma_run_push(request, front, answer);
        let list = refreshed_up_to(stored, answers, n - 1);
        assert(refreshed_at(list, n - 1, answers[n - 1]).sessions =~= refreshed_up_to(
            stored,
            answers,
            n,
        ).sessions);
        let next = refreshing(refreshed_up_to(stored, answers, n), n);
        assert(run(request, inputs).actions =~= (loading_actions(request, loading) + asked).push(
            next.1,
        ));
    }
}

/// Showing the saved sessions with their workspaces refreshed asks the backend about every saved
/// session, in their order, with the credential that it is saved with, and then writes the list
/// in which each one is refreshed by its answer, and shows it.
pub proof fn law_list_refreshes_each(
    loading: Seq<Input>,
    stored: StoredView,
    answers: Seq<Option<AccountsView>>,
    fresh_id: Seq<char>,
    now: i64,
)
    requires
        loads(RequestView::List { refresh: true }, loading, stored),
        answers.len() == stored.sessions.len(),
    ensures
        ({
            let request = RequestView::List { refresh: true };
            let n = stored.sessions.len() as int;
            let after = refreshed_up_to(stored, answers, n);
            let done = Input { event: EventView::Done(Ok(())), session_id: fresh_id, now };
            let inputs = refreshing_inputs(loading, answers, n, fresh_id, now).push(done);
            let asked = stored.sessions.map_values(
                |session: SessionView| ActionView::FetchAccounts(session.auth_json),
            );
            &&& fits(request, inputs)
            &&& run(request, inputs).actions == loading_actions(request, loading) + asked + seq![
                ActionView::WriteFile(after),
                ActionView::Finish(Ok(response_of(after))),
            ]
        }),
{
    let request = RequestView::List { refresh: true };
    let n = stored.sessions.len() as int;
    let after = refreshed_up_to(stored, answers, n);
    let done = Input { event: EventView::Done(Ok(())), session_id: fresh_id, now };
    let front = refreshing_inputs(loading, answers, n, fresh_id, now);
    lemma_refreshing(loading, stored, answers, n, fresh_id, now);
    lemma_run_push(request, front, done);
    let asked = stored.sessions.map_values(
        |session: SessionView| ActionView::FetchAccounts(session.auth_json),
    );
    assert(asked =~= Seq::new(
        n as nat,
        |i: int| ActionView::FetchAccounts(stored.sessions[i].auth_json),
    ));
    assert(run(request, front.push(done)).actions =~= loading_actions(request, loading) + asked
        + seq![ActionView::WriteFile(after), ActionView::Finish(Ok(response_of(after)))]);
}

/// Logging out of a saved session does, whether or not its tokens could be revoked and where
/// nothing else fails outside, exactly this: load the list, revoke the tokens, give the credential
/// of the successor (or take the credential away) if the session was in use, write the list
/// without the session, answer.
pub proof fn law_logout_run(
    loading: Seq<Input>,
    stored: StoredView,
    session_id: Seq<char>,
    revoked: Result<(), IoErrorKind>,
    fresh_id: Seq<char>,
    now: i64,
)
    requires
        loads(RequestView::Logout { session_id }, loading, stored),
        stored.has(session_id),
    ensures
        ({
            let request = RequestView::Logout { session_id };
            let rest = stored.without(session_id);
            let after = rest.with_successor(session_id);
            let done = Input { event: EventView::Done(Ok(())), session_id: fresh_id, now };
            let revoking = loading.push(
                Input { event: EventView::Done(revoked), session_id: fresh_id, now },
            );
            let asked = loading_actions(request, loading).push(
                ActionView::RevokeTokens(stored.session(session_id).auth_json),
            );
            let saved = seq![
                ActionView::WriteFile(after),
                ActionView::Finish(Ok(response_of(after))),
            ];
            match rest.successor_credential(session_id) {
                CredentialView::Keep => {
                    &&& fits(request, revoking.push(done))
                    &&& run(request, revoking.push(done)).actions == asked + saved
                },
                CredentialView::Write(auth) => {
                    &&& fits(request, revoking.push(done).push(done))
                    &&& run(request, revoking.push(done).push(done)).actions == asked.push(
                        ActionView::WriteAuth(auth),
                    ) + saved
                },
                CredentialView::Clear => {
                    &&& fits(request, revoking.push(done).push(done))
                    &&& run(request, revoking.push(done).push(done)).actions == asked.push(
                        ActionView::ClearAuth,
                    ) + saved
                },
            }
        }),
{
    let request = RequestView::Logout { session_id };
    let revoke = Input { event: EventView::Done(revoked), session_id: fresh_id, now };
    let done = Input { event: EventView::Done(Ok(())), session_id: fresh_id, now };
    let second = loading.push(revoke);
    let third = second.push(done);
    lemma_loads(request, loading, stored);
    lemma_run_push(request, loading, revoke);
    lemma_run_push(request, second, done);
    let asked = run(request, loading).actions;
    let rest = stored.without(session_id);
    let after = rest.with_successor(session_id);
    let saved = seq![ActionView::WriteFile(after), ActionView::Finish(Ok(response_of(after)))];
    match rest.successor_credential(session_id) {
        CredentialView::Keep => {
            assert(run(request, third).actions =~= asked + saved);
        },
        CredentialView::Write(auth) => {
            lemma_run_push(request, third, done);
            assert(run(request, third.push(done)).actions =~= asked.push(
                ActionView::WriteAuth(auth),
            ) + saved);
        },
        CredentialView::Clear => {
            lemma_run_push(request, third, done);
            assert(run(request, third.push(done)).actions =~= asked.push(ActionView::ClearAuth)
                + saved);
        },
    }
}

/// Whether every list that was read has different ids.
pub open spec fn reads_different_ids(inputs: Seq<Input>) -> bool {
    forall|i: int|
        0 <= i < inputs.len() ==> (#[trigger] inputs[i].event matches EventView::FileRead(
            Ok(stored),
        ) ==> stored.ids_differ())
}

/// Whether the ids that sessions are made with are all different, and in no list that was read.
pub open spec fn ids_are_fresh(inputs: Seq<Input>) -> bool {
    &&& forall|i: int, j: int|
        0 <= i < j < inputs.len() ==> #[trigger] inputs[i].session_id
            != #[trigger] inputs[j].session_id
    &&& forall|i: int, j: int|
        #![trigger inputs[i].event, inputs[j].session_id]
        0 <= i < inputs.len() && 0 <= j < inputs.len() ==> (
        inputs[i].event matches EventView::FileRead(Ok(stored)) ==> !stored.has(
            inputs[j].session_id,
        ))
}

/// A list with different ids, and none of those that come from the `n`-th input on.
spec fn ids_open(stored: StoredView, inputs: Seq<Input>, n: int) -> bool {
    &&& stored.ids_differ()
    &&& forall|j: int| n <= j < inputs.len() ==> !stored.has(#[trigger] inputs[j].session_id)
}

/// The lists that a run carries after the first `n` inputs have different ids.
spec fn ids_standing(run: Run, inputs: Seq<Input>, n: int) -> bool {
    &&& run.loaded matches Some(loaded) ==> ids_open(loaded, inputs, n)
    &&& run.actions.last() matches ActionView::WriteFile(stored) ==> stored.ids_differ()
    &&& match run.operation.phase {
        PhaseView::SavingImport(stored) => ids_open(stored, inputs, n),
        PhaseView::FetchingAdded(stored, session) => !stored.has(session.session_id),
        PhaseView::FetchingListed(stored, _) => stored.ids_differ(),
        PhaseView::SavingAuth(stored) => stored.ids_differ(),
        PhaseView::SavingFile(stored) => stored.ids_differ(),
        _ => true,
    }
}

/// The list of the first session has no other id than that session's.
proof fn lemma_imported_ids(session: SessionView, inputs: Seq<Input>, n: int)
    requires
        0 < n <= inputs.len(),
        session.session_id == inputs[n - 1].session_id,
        ids_are_fresh(inputs),
    ensures
        ids_open(imported(session), inputs, n),
{
    let list = imported(session);
    assert forall|j: int| n <= j < inputs.len() implies !list.has(
        #[trigger] inputs[j].session_id,
    ) by {
        assert(inputs[n - 1].session_id != inputs[j].session_id);
        lemma_id_from(list.sessions, inputs[j].session_id, 0);
    }
}

proof fn lemma_ids_standing(request: RequestView, inputs: Seq<Input>, n: int)
    requires
        0 <= n <= inputs.len(),
        fits(request, inputs.take(n)),
        reads_different_ids(inputs),
        ids_are_fresh(inputs),
    ensures
        ids_standing(run(request, inputs.take(n)), inputs, n),
    decreases n,
{
    if n > 0 {
        let front = inputs.take(n - 1);
        assert(inputs.take(n).drop_last() =~= front);
        lemma_ids_standing(request, inputs, n - 1);
        lemma_standing(request, front);
        let before = run(request, front);
        let input = inputs.take(n).last();
        assert(input == inputs[n - 1]);
        match (before.operation.phase, input.event) {
            (PhaseView::FetchingAdded(stored, session), EventView::AccountsFetched(answer)) => {
                law_add_keeps_ids_different(stored, refreshed(session, answer), request->switch);
            },
            (PhaseView::FetchingListed(stored, at), EventView::AccountsFetched(answer)) => {
                lemma_refresh_keeps_ids_different(stored, at, answer);
            },
            (PhaseView::Revoking(_), EventView::Done(_)) => {
                law_logout_keeps_ids_different(before.loaded->0, request->Logout_session_id);
            },
            (PhaseView::ReadingAuth(TargetView::Import), EventView::AuthRead(Ok(Some(auth)))) => {
                if auth.tokens is Some {
                    lemma_imported_ids(
                        session_of(auth, auth.tokens->0, no_claims(), input.session_id, input.now),
                        inputs,
                        n,
                    );
                }
            },
            (PhaseView::ParsingClaims(TargetView::Import, auth), EventView::ClaimsParsed(parsed)) => {
                if auth.tokens is Some {
                    lemma_imported_ids(
                        session_of(
                            auth,
                            auth.tokens->0,
                            claims_or_none(parsed),
                            input.session_id,
                            input.now,
                        ),
                        inputs,
                        n,
                    );
                }
            },
            _ => {
                if load_completed(before.operation.phase, input.event) is Some {
                    let stored = load_completed(before.operation.phase, input.event)->0;
                    assert(ids_open(stored, inputs, n));
                    if let RequestView::Switch { session_id, account_id } = request {
                        if stored.has(session_id) {
                            lemma_switch_keeps_ids_different(
                                stored,
                                session_id,
                                account_id,
                                input.now,
                            );
                        }
                    }
                }
            },
        }
    }
}

proof fn lemma_refresh_keeps_ids_different(
    stored: StoredView,
    at: int,
    answer: Option<AccountsView>,
)
    requires
        stored.ids_differ(),
        0 <= at,
    ensures
        refreshed_at(stored, at, answer).ids_differ(),
{
    let after = refreshed_at(stored, at, answer);
    assert forall|i: int| 0 <= i < after.sessions.len() implies #[trigger] after.sessions[i].session_id
        == stored.sessions[i].session_id by {}
}

proof fn lemma_switch_keeps_ids_different(
    stored: StoredView,
    session_id: Seq<char>,
    account_id: Seq<char>,
    now: i64,
)
    requires
        stored.ids_differ(),
        stored.has(session_id),
    ensures
        stored.switched(session_id, account_id, now).ids_differ(),
{
    law_switch_keeps_ids(stored, session_id, account_id, now);
    let after = stored.switched(session_id, account_id, now);
    assert forall|i: int, j: int| 0 <= i < j < after.sessions.len() implies #[trigger] after.sessions[i].session_id
        != #[trigger] after.sessions[j].session_id by {
        assert(after.sessions[i].session_id == stored.sessions[i].session_id);
        assert(after.sessions[j].session_id == stored.sessions[j].session_id);
    }
}

/// Whatever happens, a list that is written has different ids, if that holds of the lists that
/// were read and every session is made with an id of its own.
pub proof fn law_written_ids_differ(request: RequestView, inputs: Seq<Input>)
    requires
        fits(request, inputs),
        reads_different_ids(inputs),
        ids_are_fresh(inputs),
    ensures
        run(request, inputs).actions.last() matches ActionView::WriteFile(stored)
            ==> stored.ids_differ(),
{
    assert(inputs.take(inputs.len() as int) =~= inputs);
    lemma_ids_standing(request, inputs, inputs.len() as int);
}

} // verus!
