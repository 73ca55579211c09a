//! The four flows of a session: register, login, refresh and logout.
//!
//! A flow never touches the credential store itself. It is a state
//! machine: each step either asks one thing of the store and says what it
//! is waiting for, or ends with a reply or an error. Whoever holds the
//! store performs the call and hands the answer to `resume`.

use crate::error::AppError;
use crate::model::{
    DoctorUserRow, DoctorView, NewDoctor, NewDoctorView, NewRefresh, NewRefreshView, RefreshRow,
    RefreshView, RegisterInput, RegisterView,
};
use crate::token::{Claims, ClaimsView, LATEST_CLOCK};
use crate::transport::{cookie_views, CookieView, SetCookie};
use vstd::prelude::*;

verus! {

/// One thing asked of the credential store.
#[derive(Debug)]
pub enum StoreCall {
    /// Look up the principal with this registration number.
    FindDoctor(String),
    /// Create this principal.
    InsertDoctor(NewDoctor),
    /// Look up the refresh record with this identifier.
    FindRefresh(String),
    /// Mark the refresh record with this identifier as revoked, and count
    /// the records that the call changed.
    RevokeRefresh(String),
    /// Record this refresh token.
    InsertRefresh(NewRefresh),
}

pub ghost enum CallView {
    FindDoctor(Seq<char>),
    InsertDoctor(NewDoctorView),
    FindRefresh(Seq<char>),
    RevokeRefresh(Seq<char>),
    InsertRefresh(NewRefreshView),
}

impl View for StoreCall {
    type V = CallView;

    open spec fn view(&self) -> CallView {
        match self {
            StoreCall::FindDoctor(reg_no) => CallView::FindDoctor(reg_no@),
            StoreCall::InsertDoctor(new) => CallView::InsertDoctor(new@),
            StoreCall::FindRefresh(jti) => CallView::FindRefresh(jti@),
            StoreCall::RevokeRefresh(jti) => CallView::RevokeRefresh(jti@),
            StoreCall::InsertRefresh(new) => CallView::InsertRefresh(new@),
        }
    }
}

/// What the credential store answered.
#[derive(Debug)]
pub enum StoreAnswer {
    /// The principal that was looked up, if there is one.
    Doctor(Option<DoctorUserRow>),
    /// The principal that was created.
    DoctorInserted(DoctorUserRow),
    /// The refresh record that was looked up, if there is one.
    Refresh(Option<RefreshRow>),
    /// How many refresh records the revocation changed.
    Revoked(u64),
    /// The refresh token was recorded.
    RefreshInserted,
    /// The store refused a row that breaks one of its uniqueness rules.
    Conflict,
    /// The store failed.
    Failed,
}

pub ghost enum AnswerView {
    Doctor(Option<DoctorView>),
    DoctorInserted(DoctorView),
    Refresh(Option<RefreshView>),
    Revoked(u64),
    RefreshInserted,
    Conflict,
    Failed,
}

impl View for StoreAnswer {
    type V = AnswerView;

    open spec fn view(&self) -> AnswerView {
        match self {
            StoreAnswer::Doctor(Some(row)) => AnswerView::Doctor(Some(row@)),
            StoreAnswer::Doctor(None) => AnswerView::Doctor(None),
            StoreAnswer::DoctorInserted(row) => AnswerView::DoctorInserted(row@),
            StoreAnswer::Refresh(Some(row)) => AnswerView::Refresh(Some(row@)),
            StoreAnswer::Refresh(None) => AnswerView::Refresh(None),
            StoreAnswer::Revoked(n) => AnswerView::Revoked(*n),
            StoreAnswer::RefreshInserted => AnswerView::RefreshInserted,
            StoreAnswer::Conflict => AnswerView::Conflict,
            StoreAnswer::Failed => AnswerView::Failed,
        }
    }
}

/// The fields of a principal that a reply shows.
#[derive(Debug)]
pub struct DoctorPublic {
    pub id: u128,
    pub reg_no: String,
    pub first_name: Option<String>,
    pub last_name: Option<String>,
}

pub ghost struct DoctorPublicView {
    pub id: u128,
    pub reg_no: Seq<char>,
    pub first_name: Option<Seq<char>>,
    pub last_name: Option<Seq<char>>,
}

impl View for DoctorPublic {
    type V = DoctorPublicView;

    open spec fn view(&self) -> DoctorPublicView {
        DoctorPublicView {
            id: self.id,
            reg_no: self.reg_no@,
            first_name: self.first_name.deep_view(),
            last_name: self.last_name.deep_view(),
        }
    }
}

/// The tokens of a new session.
#[derive(Debug)]
pub struct TokenBundle {
    pub access: String,
    pub refresh: String,
    pub jti: String,
}

pub ghost struct TokenBundleView {
    pub access: Seq<char>,
    pub refresh: Seq<char>,
    pub jti: Seq<char>,
}

impl View for TokenBundle {
    type V = TokenBundleView;

    open spec fn view(&self) -> TokenBundleView {
        TokenBundleView { access: self.access@, refresh: self.refresh@, jti: self.jti@ }
    }
}

/// The body of a successful reply.
#[derive(Debug)]
pub enum ReplyBody {
    Empty,
    /// A principal and the tokens of its new session.
    Session(DoctorPublic, TokenBundle),
    /// A new access token.
    AccessToken(String),
}

pub ghost enum BodyView {
    Empty,
    Session(DoctorPublicView, TokenBundleView),
    AccessToken(Seq<char>),
}

impl View for ReplyBody {
    type V = BodyView;

    open spec fn view(&self) -> BodyView {
        match self {
            ReplyBody::Empty => BodyView::Empty,
            ReplyBody::Session(doctor, tokens) => BodyView::Session(doctor@, tokens@),
            ReplyBody::AccessToken(token) => BodyView::AccessToken(token@),
        }
    }
}

/// A successful reply: its status, its body and the cookies it sets.
#[derive(Debug)]
pub struct HttpReply {
    pub status: u16,
    pub body: ReplyBody,
    pub cookies: Vec<SetCookie>,
}

pub ghost struct ReplyView {
    pub status: u16,
    pub body: BodyView,
    pub cookies: Seq<CookieView>,
}

impl View for HttpReply {
    type V = ReplyView;

    open spec fn view(&self) -> ReplyView {
        ReplyView { status: self.status, body: self.body@, cookies: cookie_views(self.cookies@) }
    }
}

/// What a flow remembers while it waits for the store.
#[derive(Debug)]
pub enum Pending {
    /// Registration looked for a principal with the same number.
    RegisterLookup(RegisterInput),
    /// Registration asked for the principal to be created.
    RegisterInsert,
    /// Login looked for the principal; the password is kept.
    LoginLookup(String),
    /// Registration or login asked for the refresh token to be recorded;
    /// the status and body of the reply are kept.
    SessionStore(u16, DoctorPublic, TokenBundle),
    /// Rotation looked for the record of the presented token; token and
    /// claims are kept.
    RefreshLookup(String, Claims),
    /// Rotation asked for the presented record to be revoked.
    RefreshRevoke(Claims),
    /// Rotation asked for the new refresh token to be recorded; the new
    /// access and refresh tokens are kept.
    RefreshStore(String, String),
    /// Logout asked for the presented record to be revoked.
    LogoutRevoke,
}

pub ghost enum PendingView {
    RegisterLookup(RegisterView),
    RegisterInsert,
    LoginLookup(Seq<char>),
    SessionStore(u16, DoctorPublicView, TokenBundleView),
    RefreshLookup(Seq<char>, ClaimsView),
    RefreshRevoke(ClaimsView),
    RefreshStore(Seq<char>, Seq<char>),
    LogoutRevoke,
}

impl View for Pending {
    type V = PendingView;

    open spec fn view(&self) -> PendingView {
        match self {
            Pending::RegisterLookup(input) => PendingView::RegisterLookup(input@),
            Pending::RegisterInsert => PendingView::RegisterInsert,
            Pending::LoginLookup(password) => PendingView::LoginLookup(password@),
            Pending::SessionStore(status, doctor, tokens) => PendingView::SessionStore(
                *status,
                doctor@,
                tokens@,
            ),
            Pending::RefreshLookup(token, claims) => PendingView::RefreshLookup(token@, claims@),
            Pending::RefreshRevoke(claims) => PendingView::RefreshRevoke(claims@),
            Pending::RefreshStore(access, refresh) => PendingView::RefreshStore(access@, refresh@),
            Pending::LogoutRevoke => PendingView::LogoutRevoke,
        }
    }
}

/// Where a flow stands: it asks the store and waits, or it has ended with
/// a reply or with an error.
#[derive(Debug)]
pub enum Step {
    Ask(StoreCall, Pending),
    Done(HttpReply),
    Fail(AppError),
}

pub ghost enum StepView {
    Ask(CallView, PendingView),
    Done(ReplyView),
    Fail(AppError),
}

impl View for Step {
    type V = StepView;

    open spec fn view(&self) -> StepView {
        match self {
            Step::Ask(call, pending) => StepView::Ask(call@, pending@),
            Step::Done(reply) => StepView::Done(reply@),
            Step::Fail(e) => StepView::Fail(*e),
        }
    }
}

/// What a step of a flow cannot compute: the time, a salt and two token
/// identifiers.
#[derive(Debug)]
pub struct Entropy {
    pub now: i64,
    pub salt: String,
    pub access_jti: String,
    pub refresh_jti: String,
}

pub ghost struct EntropyView {
    pub now: i64,
    pub salt: Seq<char>,
    pub access_jti: Seq<char>,
    pub refresh_jti: Seq<char>,
}

impl View for Entropy {
    type V = EntropyView;

    open spec fn view(&self) -> EntropyView {
        EntropyView {
            now: self.now,
            salt: self.salt@,
            access_jti: self.access_jti@,
            refresh_jti: self.refresh_jti@,
        }
    }
}

impl Clone for Entropy {
    fn clone(&self) -> (e: Entropy)
        ensures
            e@ == self@,
    {
        Entropy {
            now: self.now,
            salt: self.salt.clone(),
            access_jti: self.access_jti.clone(),
            refresh_jti: self.refresh_jti.clone(),
        }
    }
}

impl EntropyView {
    /// The time is one that the clock can show.
    pub open spec fn wf(self) -> bool {
        0 <= self.now <= LATEST_CLOCK
    }
}

} // verus!
