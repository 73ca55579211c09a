//! Flows run to their end against the store in memory, and what holds of
//! every such run.

use crate::digest::token_hash_spec;
use crate::error::{AppError, AuthError};
use crate::flow::{CallView, Entropy, EntropyView, HttpReply, Step, StepView};
use crate::model::RegisterView;
use crate::orchestrator::{
    issue_spec, lemma_resume_makes_progress, login_spec, logout_reply_spec, logout_spec,
    refresh_spec, register_spec, resume_spec, resume_with, rotated_reply_spec, step_rank,
};
use crate::password::verify_password_spec;
use crate::state::{AppState, AppStateView};
use crate::store::{
    answer_spec, find_doctor, find_refresh, has_reg_no, lemma_answer_keeps_store,
    lemma_find_refresh_at, refresh_row, revoke_rows, Db, DbView,
};
use crate::token::{hs256_claims, verify_spec};
use crate::transport::RequestView;
use vstd::prelude::*;

verus! {

/// One move of a flow against the store: a step that asks has its call
/// performed at `e.now` and is continued with the answer; a step that has
/// ended stays as it is.
pub open spec fn advance_spec(state: AppStateView, store: DbView, step: StepView, e: EntropyView) -> (
    DbView,
    StepView,
) {
    match step {
        StepView::Ask(call, pending) => {
            let (next, answer) = answer_spec(store, call, e.now);
            (next, resume_spec(state, pending, answer, e))
        },
        _ => (store, step),
    }
}

/// A flow run to its end: three moves, which is as many as any flow
/// needs.
pub open spec fn drive_spec(state: AppStateView, store: DbView, step: StepView, e: EntropyView) -> (
    DbView,
    StepView,
) {
    let first = advance_spec(state, store, step, e);
    let second = advance_spec(state, first.0, first.1, e);
    advance_spec(state, second.0, second.1, e)
}

/// A move brings a flow closer to its end, keeps the store well-formed
/// and only lets it grow.
pub proof fn lemma_advance(state: AppStateView, store: DbView, step: StepView, e: EntropyView)
    requires
        store.wf(),
    ensures
        advance_spec(state, store, step, e).0.wf(),
        store.grows_into(advance_spec(state, store, step, e).0),
        step_rank(step) <= 3,
        step_rank(step) > 0 ==> step_rank(advance_spec(state, store, step, e).1) < step_rank(step),
        step_rank(step) == 0 ==> advance_spec(state, store, step, e) == (store, step),
{
    match step {
        StepView::Ask(call, pending) => {
            lemma_answer_keeps_store(store, call, e.now);
            lemma_resume_makes_progress(state, pending, answer_spec(store, call, e.now).1, e);
        },
        _ => {},
    }
}

/// A flow that is run to its end has ended: it asks nothing more. The
/// store is well-formed and has only grown: whatever the flow, no row was
/// deleted, no principal changed, and no revoked record came back to
/// life.
pub proof fn lemma_drive_ends(state: AppStateView, store: DbView, step: StepView, e: EntropyView)
    requires
        store.wf(),
    ensures
        drive_spec(state, store, step, e).0.wf(),
        store.grows_into(drive_spec(state, store, step, e).0),
        !(drive_spec(state, store, step, e).1 is Ask),
{
    let first = advance_spec(state, store, step, e);
    lemma_advance(state, store, step, e);
    let second = advance_spec(state, first.0, first.1, e);
    lemma_advance(state, first.0, first.1, e);
    lemma_advance(state, second.0, second.1, e);
}

/// Logout always succeeds: whatever the store holds and whatever the
/// request carries, the flow ends with status 200 and the cleared
/// cookies. So it does when it is called again on the store that a first
/// logout left, with the same request.
pub proof fn lemma_logout_always_succeeds(
    state: AppStateView,
    store: DbView,
    req: RequestView,
    e1: EntropyView,
    e2: EntropyView,
)
    ensures
        ({
            let first = drive_spec(state, store, logout_spec(state, req, e1.now), e1);
            let second = drive_spec(state, first.0, logout_spec(state, req, e2.now), e2);
            &&& first.1 == StepView::Done(logout_reply_spec(state))
            &&& second.1 == StepView::Done(logout_reply_spec(state))
            &&& logout_reply_spec(state).status == 200
        }),
{
}

/// Rotation is single-use: once a refresh request has succeeded, the
/// same request, replayed at any later moment against the store that the
/// first left, is refused as unauthorized.
pub proof fn lemma_rotation_is_single_use(
    state: AppStateView,
    store: DbView,
    req: RequestView,
    e1: EntropyView,
    e2: EntropyView,
)
    requires
        store.wf(),
        drive_spec(state, store, refresh_spec(state, req, e1.now), e1).1 is Done,
    ensures
        drive_spec(
            state,
            drive_spec(state, store, refresh_spec(state, req, e1.now), e1).0,
            refresh_spec(state, req, e2.now),
            e2,
        ).1 == StepView::Fail(AppError::Unauthorized),
{
    let start = refresh_spec(state, req, e1.now);
    let first = advance_spec(state, store, start, e1);
    let second = advance_spec(state, first.0, first.1, e1);
    let third = advance_spec(state, second.0, second.1, e1);
    lemma_advance(state, store, start, e1);
    lemma_advance(state, first.0, first.1, e1);
    lemma_advance(state, second.0, second.1, e1);
    assert(start is Ask);
    let jti = start->Ask_0->FindRefresh_0;
    assert(first.0 == store);
    assert(first.1 is Ask);
    let found = find_refresh(store.refresh, jti);
    assert(found is Some);
    let i = choose|i: int| 0 <= i < store.refresh.len() && #[trigger] store.refresh[i].jti == jti;
    assert(second.1 is Ask);
    assert(third.1 is Done);
    let left = third.0;
    lemma_answer_keeps_store(store, first.1->Ask_0, e1.now);
    lemma_answer_keeps_store(second.0, second.1->Ask_0, e1.now);
    assert(second.0.refresh[i].revoked);
    assert(left.refresh[i].revoked);
    assert(left.refresh[i].jti == jti);
    lemma_find_refresh_at(left.refresh, i);
    let again = refresh_spec(state, req, e2.now);
    if again is Ask {
        assert(again->Ask_0 == CallView::FindRefresh(jti));
        let replay = advance_spec(state, left, again, e2);
        assert(replay.1 == StepView::Fail(AppError::Unauthorized));
    }
}

/// A rotation that succeeds has replaced the record: the presented token
/// verified, its record was held, not revoked and carried the hash of the
/// token; that record is now revoked, and one record was added for the
/// same principal, with the hash of the new refresh token. The reply
/// carries the new tokens.
pub proof fn lemma_rotation_replaces_the_record(
    state: AppStateView,
    store: DbView,
    req: RequestView,
    e: EntropyView,
)
    requires
        store.wf(),
        drive_spec(state, store, refresh_spec(state, req, e.now), e).1 is Done,
    ensures
        ({
            let token = req.refresh_cookie->0;
            let claims = hs256_claims(state.secret, token)->0;
            let issued = issue_spec(state, claims.sub, claims.role, e)->0;
            let end = drive_spec(state, store, refresh_spec(state, req, e.now), e);
            &&& req.refresh_cookie is Some
            &&& verify_spec(state.secret, token, e.now) == Ok::<_, AuthError>(claims)
            &&& find_refresh(store.refresh, claims.jti) matches Some(row) && !row.revoked
                && row.token_hash == token_hash_spec(token)
            &&& issue_spec(state, claims.sub, claims.role, e) is Some
            &&& issued.record.doctor_id == claims.sub
            &&& issued.record.token_hash == token_hash_spec(issued.refresh)
            &&& end.0 == (DbView {
                refresh: revoke_rows(store.refresh, claims.jti).push(
                    refresh_row(issued.record, store.refresh.len() + 1, e.now),
                ),
                ..store
            })
            &&& end.1 == StepView::Done(rotated_reply_spec(state, issued.access, issued.refresh))
        }),
{
    let start = refresh_spec(state, req, e.now);
    let first = advance_spec(state, store, start, e);
    let second = advance_spec(state, first.0, first.1, e);
    lemma_advance(state, store, start, e);
    lemma_advance(state, first.0, first.1, e);
    lemma_advance(state, second.0, second.1, e);
    assert(start is Ask);
    assert(first.1 is Ask);
    assert(second.1 is Ask);
}

/// A rotation that fails mints nothing: no record is added and no
/// principal changes. At most the presented record has been revoked.
pub proof fn lemma_failed_rotation_mints_nothing(
    state: AppStateView,
    store: DbView,
    req: RequestView,
    e: EntropyView,
)
    requires
        store.wf(),
        drive_spec(state, store, refresh_spec(state, req, e.now), e).1 is Fail,
    ensures
        ({
            let end = drive_spec(state, store, refresh_spec(state, req, e.now), e);
            &&& end.0.doctors == store.doctors
            &&& end.0.refresh.len() == store.refresh.len()
            &&& store.grows_into(end.0)
        }),
{
    let start = refresh_spec(state, req, e.now);
    let first = advance_spec(state, store, start, e);
    let second = advance_spec(state, first.0, first.1, e);
    lemma_advance(state, store, start, e);
    lemma_advance(state, first.0, first.1, e);
    lemma_advance(state, second.0, second.1, e);
    lemma_drive_ends(state, store, start, e);
}

/// A login with an unknown registration number and a login with a wrong
/// password end alike: unauthorized, with the store untouched.
pub proof fn lemma_login_failure_is_uniform(
    state: AppStateView,
    store: DbView,
    reg_no: Seq<char>,
    password: Seq<char>,
    e: EntropyView,
)
    requires
        find_doctor(store.doctors, reg_no) matches Some(row) ==> !verify_password_spec(
            password,
            row.password_hash,
        ),
    ensures
        drive_spec(state, store, login_spec(reg_no, password), e) == (
            store,
            StepView::Fail(AppError::Unauthorized),
        ),
{
}

/// A registration under a number that is already held ends as a
/// conflict, with the store untouched.
pub proof fn lemma_register_conflict(
    state: AppStateView,
    store: DbView,
    input: RegisterView,
    e: EntropyView,
)
    requires
        has_reg_no(store.doctors, input.reg_no),
    ensures
        drive_spec(state, store, register_spec(input), e) == (
            store,
            StepView::Fail(AppError::Conflict),
        ),
{
}

/// Makes one move of a flow against the store.
pub fn advance(state: &AppState, db: &mut Db, step: Step, e: &Entropy) -> (next: Step)
    requires
        state.wf(),
        e.wf(),
        old(db).wf(),
    ensures
        final(db).wf(),
        (final(db)@, next@) == advance_spec(state@, old(db)@, step@, e@),
{
    match step {
        Step::Ask(call, pending) => {
            let answer = db.answer(call, e.now);
            resume_with(state, pending, answer, e.clone())
        },
        Step::Done(reply) => Step::Done(reply),
        Step::Fail(err) => Step::Fail(err),
    }
}

/// Runs a flow to its end against the store, the time, salt and
/// identifiers being given.
pub fn drive_with(state: &AppState, db: &mut Db, step: Step, e: &Entropy) -> (r: Result<
    HttpReply,
    AppError,
>)
    requires
        state.wf(),
        e.wf(),
        old(db).wf(),
    ensures
        final(db).wf(),
        match r {
            Ok(reply) => (final(db)@, StepView::Done(reply@)) == drive_spec(
                state@,
                old(db)@,
                step@,
                e@,
            ),
            Err(err) => (final(db)@, StepView::Fail(err)) == drive_spec(
                state@,
                old(db)@,
                step@,
                e@,
            ),
        },
{
    proof {
        lemma_drive_ends(state@, db@, step@, e@);
    }
    let first = advance(state, db, step, e);
    let second = advance(state, db, first, e);
    match advance(state, db, second, e) {
        Step::Done(reply) => Ok(reply),
        Step::Fail(err) => Err(err),
        Step::Ask(_, _) => Err(AppError::Internal),
    }
}

/// Runs a flow to its end against the store.
pub fn drive(state: &AppState, db: &mut Db, step: Step) -> (r: Result<HttpReply, AppError>)
    requires
        state.wf(),
        old(db).wf(),
    ensures
        final(db).wf(),
        exists|e: EntropyView|
            e.wf() && match r {
                Ok(reply) => (final(db)@, StepView::Done(reply@)) == #[trigger] drive_spec(
                    state@,
                    old(db)@,
                    step@,
                    e,
                ),
                Err(err) => (final(db)@, StepView::Fail(err)) == drive_spec(
                    state@,
                    old(db)@,
                    step@,
                    e,
                ),
            },
{
    let e = Entropy::draw();
    drive_with(state, db, step, &e)
}

} // verus!
