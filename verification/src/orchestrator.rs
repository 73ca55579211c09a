//! The decisions of the four flows: what to ask of the credential store,
//! and what to make of each answer.

use crate::digest::{lemma_token_hash_differs, refresh_token_hash, token_hash_spec};
use crate::error::AppError;
use crate::flow::{
    AnswerView, BodyView, CallView, DoctorPublic, DoctorPublicView, Entropy, EntropyView,
    HttpReply, Pending, PendingView, ReplyBody, ReplyView, Step, StepView, StoreAnswer, StoreCall,
    TokenBundle, TokenBundleView,
};
use crate::model::{
    new_doctor_spec, DoctorUserRow, DoctorView, LoginInput, NewDoctor, NewRefresh, NewRefreshView,
    RegisterInput, RegisterView,
};
use crate::password::{
    argon2_phc, fresh_salt, hash_password_with_salt, is_salt_text, verify_password,
    verify_password_spec,
};
use crate::state::{AppState, AppStateView};
use crate::text::text_eq;
use crate::token::{
    base64url, hs256_token, is_jti_text, issued_claims, new_jti, now_ts, sign_at, verify_at,
    verify_spec, LATEST_CLOCK,
};
use crate::transport::{
    cookie_views, logout_cookies, logout_cookies_spec, refresh_cookie, refresh_token,
    session_cookie_spec, RequestParts, RequestView,
};
use vstd::prelude::*;

verus! {

/// The tokens of a new session and the record that the ledger is to keep
/// of its refresh token.
#[derive(Debug)]
pub struct Issued {
    pub access: String,
    pub refresh: String,
    pub jti: String,
    pub record: NewRefresh,
}

pub ghost struct IssuedView {
    pub access: Seq<char>,
    pub refresh: Seq<char>,
    pub jti: Seq<char>,
    pub record: NewRefreshView,
}

impl View for Issued {
    type V = IssuedView;

    open spec fn view(&self) -> IssuedView {
        IssuedView {
            access: self.access@,
            refresh: self.refresh@,
            jti: self.jti@,
            record: self.record@,
        }
    }
}

/// The session that is issued to `user_id` in `role`: an access token
/// and a refresh token, both signed at `e.now`, and the ledger record of
/// the refresh token, which holds its hash and its expiry. `None` where
/// one of the tokens cannot be made.
pub open spec fn issue_spec(state: AppStateView, user_id: u128, role: Seq<char>, e: EntropyView) -> Option<
    IssuedView,
> {
    let access = hs256_token(
        state.secret,
        issued_claims(user_id, role, state.access_ttl, e.now, e.access_jti),
    );
    let refresh = hs256_token(
        state.secret,
        issued_claims(user_id, role, state.refresh_ttl, e.now, e.refresh_jti),
    );
    if access is Some && refresh is Some {
        Some(
            IssuedView {
                access: access->0,
                refresh: refresh->0,
                jti: e.refresh_jti,
                record: NewRefreshView {
                    doctor_id: user_id,
                    jti: e.refresh_jti,
                    token_hash: token_hash_spec(refresh->0),
                    expires_at: (e.now + state.refresh_ttl) as i64,
                },
            },
        )
    } else {
        None
    }
}

/// The fields of a principal that a reply shows.
pub open spec fn public_spec(row: DoctorView) -> DoctorPublicView {
    DoctorPublicView {
        id: row.id,
        reg_no: row.reg_no,
        first_name: row.first_name,
        last_name: row.last_name,
    }
}

/// The step that opens a session for the principal `row`: it asks for
/// the refresh record to be kept and remembers the reply, which will
/// carry `status`. Where no tokens can be made the flow fails.
pub open spec fn open_session_spec(state: AppStateView, status: u16, row: DoctorView, e: EntropyView) -> StepView {
    match issue_spec(state, row.id, "Doctor"@, e) {
        Some(issued) => StepView::Ask(
            CallView::InsertRefresh(issued.record),
            PendingView::SessionStore(
                status,
                public_spec(row),
                TokenBundleView { access: issued.access, refresh: issued.refresh, jti: issued.jti },
            ),
        ),
        None => StepView::Fail(AppError::Internal),
    }
}

/// The reply to a logout: status 200 and the three cleared cookies.
pub open spec fn logout_reply_spec(state: AppStateView) -> ReplyView {
    ReplyView { status: 200, body: BodyView::Empty, cookies: logout_cookies_spec(state) }
}

/// The reply to a rotation: status 200, the new access token in the body
/// and the new refresh token in its cookie.
pub open spec fn rotated_reply_spec(state: AppStateView, access: Seq<char>, refresh: Seq<char>) -> ReplyView {
    ReplyView {
        status: 200,
        body: BodyView::AccessToken(access),
        cookies: seq![session_cookie_spec(state, "refresh_token"@, refresh)],
    }
}

/// The first step of a registration: look for a principal with the same
/// registration number.
pub open spec fn register_spec(input: RegisterView) -> StepView {
    StepView::Ask(CallView::FindDoctor(input.reg_no), PendingView::RegisterLookup(input))
}

/// The first step of a login: look for the principal.
pub open spec fn login_spec(reg_no: Seq<char>, password: Seq<char>) -> StepView {
    StepView::Ask(CallView::FindDoctor(reg_no), PendingView::LoginLookup(password))
}

/// The first step of a rotation at time `now`: the refresh token is read
/// from its cookie alone and must verify; then its record is looked up.
pub open spec fn refresh_spec(state: AppStateView, req: RequestView, now: i64) -> StepView {
    match req.refresh_cookie {
        Some(token) => match verify_spec(state.secret, token, now) {
            Ok(claims) => StepView::Ask(
                CallView::FindRefresh(claims.jti),
                PendingView::RefreshLookup(token, claims),
            ),
            Err(_) => StepView::Fail(AppError::Unauthorized),
        },
        None => StepView::Fail(AppError::Unauthorized),
    }
}

/// The first step of a logout at time `now`: a refresh token that is
/// present and verifies has its record revoked; any other request is
/// answered at once.
pub open spec fn logout_spec(state: AppStateView, req: RequestView, now: i64) -> StepView {
    match req.refresh_cookie {
        Some(token) => match verify_spec(state.secret, token, now) {
            Ok(claims) => StepView::Ask(
                CallView::RevokeRefresh(claims.jti),
                PendingView::LogoutRevoke,
            ),
            Err(_) => StepView::Done(logout_reply_spec(state)),
        },
        None => StepView::Done(logout_reply_spec(state)),
    }
}

/// What a waiting flow makes of the store's answer.
pub open spec fn resume_spec(state: AppStateView, pending: PendingView, answer: AnswerView, e: EntropyView) -> StepView {
    match pending {
        PendingView::RegisterLookup(input) => match answer {
            AnswerView::Doctor(Some(_)) => StepView::Fail(AppError::Conflict),
            AnswerView::Doctor(None) => match argon2_phc(input.password, e.salt) {
                Some(hash) => StepView::Ask(
                    CallView::InsertDoctor(new_doctor_spec(input, hash)),
                    PendingView::RegisterInsert,
                ),
                None => StepView::Fail(AppError::Internal),
            },
            _ => StepView::Fail(AppError::Internal),
        },
        PendingView::RegisterInsert => match answer {
            AnswerView::DoctorInserted(row) => open_session_spec(state, 201, row, e),
            AnswerView::Conflict => StepView::Fail(AppError::Conflict),
            _ => StepView::Fail(AppError::Internal),
        },
        PendingView::LoginLookup(password) => match answer {
            AnswerView::Doctor(Some(row)) => if verify_password_spec(password, row.password_hash) {
                open_session_spec(state, 200, row, e)
            } else {
                StepView::Fail(AppError::Unauthorized)
            },
            AnswerView::Doctor(None) => StepView::Fail(AppError::Unauthorized),
            _ => StepView::Fail(AppError::Internal),
        },
        PendingView::SessionStore(status, doctor, tokens) => match answer {
            AnswerView::RefreshInserted => StepView::Done(
                ReplyView { status, body: BodyView::Session(doctor, tokens), cookies: seq![] },
            ),
            _ => StepView::Fail(AppError::Internal),
        },
        PendingView::RefreshLookup(token, claims) => match answer {
            AnswerView::Refresh(Some(row)) => if row.revoked || token_hash_spec(token)
                != row.token_hash {
                StepView::Fail(AppError::Unauthorized)
            } else {
                StepView::Ask(CallView::RevokeRefresh(claims.jti), PendingView::RefreshRevoke(claims))
            },
            AnswerView::Refresh(None) => StepView::Fail(AppError::Unauthorized),
            _ => StepView::Fail(AppError::Internal),
        },
        PendingView::RefreshRevoke(claims) => match answer {
            AnswerView::Revoked(changed) => if changed == 0 {
                StepView::Fail(AppError::Unauthorized)
            } else {
                match issue_spec(state, claims.sub, claims.role, e) {
                    Some(issued) => StepView::Ask(
                        CallView::InsertRefresh(issued.record),
                        PendingView::RefreshStore(issued.access, issued.refresh),
                    ),
                    None => StepView::Fail(AppError::Internal),
                }
            },
            _ => StepView::Fail(AppError::Internal),
        },
        PendingView::RefreshStore(access, refresh) => match answer {
            AnswerView::RefreshInserted => StepView::Done(rotated_reply_spec(state, access, refresh)),
            _ => StepView::Fail(AppError::Internal),
        },
        PendingView::LogoutRevoke => StepView::Done(logout_reply_spec(state)),
    }
}

/// How many answers a waiting flow still needs at most.
pub open spec fn pending_rank(pending: PendingView) -> nat {
    match pending {
        PendingView::RegisterLookup(_) => 3,
        PendingView::RegisterInsert => 2,
        PendingView::LoginLookup(_) => 2,
        PendingView::SessionStore(_, _, _) => 1,
        PendingView::RefreshLookup(_, _) => 3,
        PendingView::RefreshRevoke(_) => 2,
        PendingView::RefreshStore(_, _) => 1,
        PendingView::LogoutRevoke => 1,
    }
}

/// How many answers a step still needs at most: none once it has ended.
pub open spec fn step_rank(step: StepView) -> nat {
    match step {
        StepView::Ask(_, pending) => pending_rank(pending),
        _ => 0,
    }
}

/// Every answer brings a flow closer to its end: no flow asks the store
/// more than three times.
pub proof fn lemma_resume_makes_progress(
    state: AppStateView,
    pending: PendingView,
    answer: AnswerView,
    e: EntropyView,
)
    ensures
        step_rank(resume_spec(state, pending, answer, e)) < pending_rank(pending),
        pending_rank(pending) <= 3,
{
}

impl Entropy {
    pub open spec fn wf(&self) -> bool {
        self@.wf()
    }

    /// The time now, a fresh salt and two fresh token identifiers.
    pub fn draw() -> (e: Entropy)
        ensures
            e.wf(),
            is_salt_text(e.salt@),
            exists|seed: Seq<u8>| seed.len() == 16 && e.access_jti@ == #[trigger] base64url(seed),
            exists|seed: Seq<u8>| seed.len() == 16 && e.refresh_jti@ == #[trigger] base64url(seed),
            is_jti_text(e.access_jti@),
            is_jti_text(e.refresh_jti@),
    {
        Entropy { now: now_ts(), salt: fresh_salt(), access_jti: new_jti(), refresh_jti: new_jti() }
    }
}

/// Issues a session to `user_id` in `role`. The ledger record holds the
/// hash of the refresh token, which is never the token.
pub fn issue(state: &AppState, user_id: u128, role: &str, e: Entropy) -> (r: Option<Issued>)
    requires
        state.wf(),
        e.wf(),
    ensures
        match r {
            Some(issued) => issue_spec(state@, user_id, role@, e@) == Some(issued@),
            None => issue_spec(state@, user_id, role@, e@) is None,
        },
        r matches Some(issued) ==> issued.record.token_hash@ != issued.refresh@,
{
    let access = match sign_at(&state.jwt, user_id, role, state.access_ttl, e.now, e.access_jti) {
        Ok((token, _)) => token,
        Err(_) => {
            return None;
        },
    };
    match sign_at(&state.jwt, user_id, role, state.refresh_ttl, e.now, e.refresh_jti) {
        Ok((refresh, claims)) => {
            proof {
                lemma_token_hash_differs(refresh@);
            }
            let token_hash = refresh_token_hash(refresh.as_str());
            let jti = claims.jti.clone();
            Some(
                Issued {
                    access,
                    refresh,
                    jti,
                    record: NewRefresh {
                        doctor_id: user_id,
                        jti: claims.jti,
                        token_hash,
                        expires_at: claims.exp,
                    },
                },
            )
        },
        Err(_) => None,
    }
}

/// The fields of `row` that a reply shows.
pub fn public_fields(row: DoctorUserRow) -> (doctor: DoctorPublic)
    ensures
        doctor@ == public_spec(row@),
{
    DoctorPublic {
        id: row.id,
        reg_no: row.reg_no,
        first_name: row.first_name,
        last_name: row.last_name,
    }
}

fn open_session(state: &AppState, status: u16, row: DoctorUserRow, e: Entropy) -> (step: Step)
    requires
        state.wf(),
        e.wf(),
    ensures
        step@ == open_session_spec(state@, status, row@, e@),
        step matches Step::Ask(StoreCall::InsertRefresh(record), Pending::SessionStore(_, _, tokens))
            ==> record.token_hash@ != tokens.refresh@,
{
    match issue(state, row.id, "Doctor", e) {
        Some(issued) => Step::Ask(
            StoreCall::InsertRefresh(issued.record),
            Pending::SessionStore(
                status,
                public_fields(row),
                TokenBundle { access: issued.access, refresh: issued.refresh, jti: issued.jti },
            ),
        ),
        None => Step::Fail(AppError::Internal),
    }
}

/// The reply to a logout.
pub fn logout_reply(state: &AppState) -> (reply: HttpReply)
    ensures
        reply@ == logout_reply_spec(state@),
{
    HttpReply { status: 200, body: ReplyBody::Empty, cookies: logout_cookies(state) }
}

fn rotated_reply(state: &AppState, access: String, refresh: String) -> (reply: HttpReply)
    ensures
        reply@ == rotated_reply_spec(state@, access@, refresh@),
{
    let mut cookies = Vec::new();
    cookies.push(refresh_cookie(state, refresh));
    assert(cookie_views(cookies@) =~= seq![session_cookie_spec(state@, "refresh_token"@, refresh@)]);
    HttpReply { status: 200, body: ReplyBody::AccessToken(access), cookies }
}

/// Starts a registration.
pub fn register(input: RegisterInput) -> (step: Step)
    ensures
        step@ == register_spec(input@),
{
    Step::Ask(StoreCall::FindDoctor(input.reg_no.clone()), Pending::RegisterLookup(input))
}

/// Starts a login.
pub fn login(input: LoginInput) -> (step: Step)
    ensures
        step@ == login_spec(input.reg_no@, input.password@),
{
    Step::Ask(StoreCall::FindDoctor(input.reg_no), Pending::LoginLookup(input.password))
}

/// Starts a rotation as of the time `now`.
pub fn refresh_at(state: &AppState, req: &RequestParts, now: i64) -> (step: Step)
    ensures
        step@ == refresh_spec(state@, req@, now),
{
    match refresh_token(req) {
        Some(token) => match verify_at(&state.jwt, token.as_str(), now) {
            Ok(claims) => Step::Ask(
                StoreCall::FindRefresh(claims.jti.clone()),
                Pending::RefreshLookup(token, claims),
            ),
            Err(_) => Step::Fail(AppError::Unauthorized),
        },
        None => Step::Fail(AppError::Unauthorized),
    }
}

/// Starts a rotation now.
pub fn refresh(state: &AppState, req: &RequestParts) -> (step: Step)
    ensures
        exists|now: i64| 0 <= now <= LATEST_CLOCK && step@ == #[trigger] refresh_spec(state@, req@, now),
{
    let now = now_ts();
    refresh_at(state, req, now)
}

/// Starts a logout as of the time `now`. A logout never fails.
pub fn logout_at(state: &AppState, req: &RequestParts, now: i64) -> (step: Step)
    ensures
        step@ == logout_spec(state@, req@, now),
        !(step is Fail),
{
    match refresh_token(req) {
        Some(token) => match verify_at(&state.jwt, token.as_str(), now) {
            Ok(claims) => Step::Ask(StoreCall::RevokeRefresh(claims.jti), Pending::LogoutRevoke),
            Err(_) => Step::Done(logout_reply(state)),
        },
        None => Step::Done(logout_reply(state)),
    }
}

/// Starts a logout now.
pub fn logout(state: &AppState, req: &RequestParts) -> (step: Step)
    ensures
        exists|now: i64| 0 <= now <= LATEST_CLOCK && step@ == #[trigger] logout_spec(state@, req@, now),
        !(step is Fail),
{
    let now = now_ts();
    logout_at(state, req, now)
}

/// Continues a waiting flow with the store's answer, the time, salt and
/// identifiers being given.
pub fn resume_with(state: &AppState, pending: Pending, answer: StoreAnswer, e: Entropy) -> (step: Step)
    requires
        state.wf(),
        e.wf(),
    ensures
        step@ == resume_spec(state@, pending@, answer@, e@),
        step matches Step::Ask(StoreCall::InsertRefresh(record), Pending::SessionStore(_, _, tokens))
            ==> record.token_hash@ != tokens.refresh@,
        step matches Step::Ask(StoreCall::InsertRefresh(record), Pending::RefreshStore(_, refresh))
            ==> record.token_hash@ != refresh@,
{
    match pending {
        Pending::RegisterLookup(input) => match answer {
            StoreAnswer::Doctor(Some(_)) => Step::Fail(AppError::Conflict),
            StoreAnswer::Doctor(None) => match hash_password_with_salt(
                input.password.as_str(),
                e.salt.as_str(),
            ) {
                Ok(hash) => Step::Ask(
                    StoreCall::InsertDoctor(NewDoctor::from_input(input, hash)),
                    Pending::RegisterInsert,
                ),
                Err(_) => Step::Fail(AppError::Internal),
            },
            _ => Step::Fail(AppError::Internal),
        },
        Pending::RegisterInsert => match answer {
            StoreAnswer::DoctorInserted(row) => open_session(state, 201, row, e),
            StoreAnswer::Conflict => Step::Fail(AppError::Conflict),
            _ => Step::Fail(AppError::Internal),
        },
        Pending::LoginLookup(password) => match answer {
            StoreAnswer::Doctor(Some(row)) => if verify_password(
                password.as_str(),
                row.password_hash.as_str(),
            ) {
                open_session(state, 200, row, e)
            } else {
                Step::Fail(AppError::Unauthorized)
            },
            StoreAnswer::Doctor(None) => Step::Fail(AppError::Unauthorized),
            _ => Step::Fail(AppError::Internal),
        },
        Pending::SessionStore(status, doctor, tokens) => match answer {
            StoreAnswer::RefreshInserted => {
                let cookies = Vec::new();
                assert(cookie_views(cookies@) =~= seq![]);
                Step::Done(HttpReply { status, body: ReplyBody::Session(doctor, tokens), cookies })
            },
            _ => Step::Fail(AppError::Internal),
        },
        Pending::RefreshLookup(token, claims) => match answer {
            StoreAnswer::Refresh(Some(row)) => {
                let given = refresh_token_hash(token.as_str());
                if row.revoked || !text_eq(given.as_str(), row.token_hash.as_str()) {
                    Step::Fail(AppError::Unauthorized)
                } else {
                    Step::Ask(
                        StoreCall::RevokeRefresh(claims.jti.clone()),
                        Pending::RefreshRevoke(claims),
                    )
                }
            },
            StoreAnswer::Refresh(None) => Step::Fail(AppError::Unauthorized),
            _ => Step::Fail(AppError::Internal),
        },
        Pending::RefreshRevoke(claims) => match answer {
            StoreAnswer::Revoked(changed) => if changed == 0 {
                Step::Fail(AppError::Unauthorized)
            } else {
                match issue(state, claims.sub, claims.role.as_str(), e) {
                    Some(issued) => Step::Ask(
                        StoreCall::InsertRefresh(issued.record),
                        Pending::RefreshStore(issued.access, issued.refresh),
                    ),
                    None => Step::Fail(AppError::Internal),
                }
            },
            _ => Step::Fail(AppError::Internal),
        },
        Pending::RefreshStore(access, refresh) => match answer {
            StoreAnswer::RefreshInserted => Step::Done(rotated_reply(state, access, refresh)),
            _ => Step::Fail(AppError::Internal),
        },
        Pending::LogoutRevoke => Step::Done(logout_reply(state)),
    }
}

/// Continues a waiting flow with the store's answer.
pub fn resume(state: &AppState, pending: Pending, answer: StoreAnswer) -> (step: Step)
    requires
        state.wf(),
    ensures
        exists|e: EntropyView| e.wf() && step@ == #[trigger] resume_spec(state@, pending@, answer@, e),
{
    let e = Entropy::draw();
    resume_with(state, pending, answer, e)
}

} // verus!
