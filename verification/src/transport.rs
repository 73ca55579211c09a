//! How tokens travel: the request headers and cookies they are read from,
//! the cookies they are sent in, and the CSRF pair that guards
//! state-changing requests.

use crate::error::{AppError, HttpApiError};
use crate::model::{AuthUser, AuthUserView};
use crate::state::{AppState, AppStateView};
use crate::text::{clone_opt, text_eq};
use crate::token::{now_ts, verify_at, verify_spec, JwtKeys, LATEST_CLOCK};
use vstd::prelude::*;
use vstd::string::{StrSliceExecFns, StringExecFns};

verus! {

/// What of a request the authentication core reads: the `Authorization`
/// and `X-CSRF-Token` headers and the cookies `access_token`,
/// `refresh_token` and `csrf_token`.
#[derive(Debug)]
pub struct RequestParts {
    pub authorization: Option<String>,
    pub csrf_header: Option<String>,
    pub access_cookie: Option<String>,
    pub refresh_cookie: Option<String>,
    pub csrf_cookie: Option<String>,
}

pub ghost struct RequestView {
    pub authorization: Option<Seq<char>>,
    pub csrf_header: Option<Seq<char>>,
    pub access_cookie: Option<Seq<char>>,
    pub refresh_cookie: Option<Seq<char>>,
    pub csrf_cookie: Option<Seq<char>>,
}

impl View for RequestParts {
    type V = RequestView;

    open spec fn view(&self) -> RequestView {
        RequestView {
            authorization: self.authorization.deep_view(),
            csrf_header: self.csrf_header.deep_view(),
            access_cookie: self.access_cookie.deep_view(),
            refresh_cookie: self.refresh_cookie.deep_view(),
            csrf_cookie: self.csrf_cookie.deep_view(),
        }
    }
}

/// A cookie to be set on a response.
#[derive(Debug)]
pub struct SetCookie {
    pub name: String,
    pub value: String,
    pub path: String,
    pub domain: Option<String>,
    pub secure: bool,
    pub http_only: bool,
    pub max_age: Option<i64>,
}

pub ghost struct CookieView {
    pub name: Seq<char>,
    pub value: Seq<char>,
    pub path: Seq<char>,
    pub domain: Option<Seq<char>>,
    pub secure: bool,
    pub http_only: bool,
    pub max_age: Option<i64>,
}

impl View for SetCookie {
    type V = CookieView;

    open spec fn view(&self) -> CookieView {
        CookieView {
            name: self.name@,
            value: self.value@,
            path: self.path@,
            domain: self.domain.deep_view(),
            secure: self.secure,
            http_only: self.http_only,
            max_age: self.max_age,
        }
    }
}

/// The token of an `Authorization` header of the form `Bearer <token>`.
pub open spec fn bearer_spec(header: Seq<char>) -> Option<Seq<char>> {
    if header.len() >= 7 && header.subrange(0, 7) == "Bearer "@ {
        Some(header.subrange(7, header.len() as int))
    } else {
        None
    }
}

/// The access token of a request: the bearer token of its
/// `Authorization` header, else its `access_token` cookie.
pub open spec fn access_token_spec(req: RequestView) -> Option<Seq<char>> {
    match req.authorization {
        Some(header) => match bearer_spec(header) {
            Some(token) => Some(token),
            None => req.access_cookie,
        },
        None => req.access_cookie,
    }
}

/// The identity that a request establishes at time `now`: that of a
/// valid access token, and none otherwise.
pub open spec fn identify_spec(secret: Seq<u8>, req: RequestView, now: i64) -> Option<
    AuthUserView,
> {
    match access_token_spec(req) {
        Some(token) => match verify_spec(secret, token, now) {
            Ok(claims) => Some(AuthUserView { user_id: claims.sub, role: claims.role }),
            Err(_) => None,
        },
        None => None,
    }
}

/// The CSRF header and the CSRF cookie are both present and equal.
pub open spec fn csrf_pair_spec(req: RequestView) -> bool {
    req.csrf_header is Some && req.csrf_cookie is Some && req.csrf_header == req.csrf_cookie
}

/// Whether `user` may act in `role`: an administrator may act in any.
pub open spec fn role_allows(user: Option<AuthUserView>, role: Seq<char>) -> bool {
    match user {
        Some(u) => u.role == role || u.role == "Admin"@,
        None => false,
    }
}

/// An HTTP-only cookie at path `/`, scoped and secured as the state says.
pub open spec fn session_cookie_spec(state: AppStateView, name: Seq<char>, value: Seq<char>) -> CookieView {
    CookieView {
        name,
        value,
        path: "/"@,
        domain: Some(state.cookie_domain),
        secure: state.cookie_secure,
        http_only: true,
        max_age: None,
    }
}

/// The same cookie with an empty value and no lifetime left.
pub open spec fn cleared_cookie_spec(state: AppStateView, name: Seq<char>) -> CookieView {
    CookieView {
        name,
        value: ""@,
        path: "/"@,
        domain: Some(state.cookie_domain),
        secure: state.cookie_secure,
        http_only: true,
        max_age: Some(0),
    }
}

/// The CSRF cookie, readable by script, with an empty value and no
/// lifetime left.
pub open spec fn cleared_csrf_spec() -> CookieView {
    CookieView {
        name: "csrf_token"@,
        value: ""@,
        path: "/"@,
        domain: None,
        secure: false,
        http_only: false,
        max_age: Some(0),
    }
}

/// The three cookies that end a session on the client.
pub open spec fn logout_cookies_spec(state: AppStateView) -> Seq<CookieView> {
    seq![
        cleared_cookie_spec(state, "access_token"@),
        cleared_cookie_spec(state, "refresh_token"@),
        cleared_csrf_spec(),
    ]
}

/// The views of a list of cookies.
pub open spec fn cookie_views(cookies: Seq<SetCookie>) -> Seq<CookieView> {
    cookies.map_values(|c: SetCookie| c@)
}

/// The token of an `Authorization` header, if it has the form
/// `Bearer <token>`.
pub fn bearer_token(header: &str) -> (token: Option<String>)
    ensures
        token.deep_view() == bearer_spec(header@),
{
    let n = header.unicode_len();
    if n < 7 {
        return None;
    }
    if text_eq(header.substring_char(0, 7), "Bearer ") {
        Some(header.substring_char(7, n).to_owned())
    } else {
        None
    }
}

/// The access token of a request: from the `Authorization` header, else
/// from the `access_token` cookie.
pub fn access_token(req: &RequestParts) -> (token: Option<String>)
    ensures
        token.deep_view() == access_token_spec(req@),
{
    if let Some(header) = &req.authorization {
        if let Some(token) = bearer_token(header.as_str()) {
            return Some(token);
        }
    }
    clone_opt(&req.access_cookie)
}

/// The refresh token of a request: only ever its `refresh_token` cookie.
pub fn refresh_token(req: &RequestParts) -> (token: Option<String>)
    ensures
        token.deep_view() == req@.refresh_cookie,
{
    clone_opt(&req.refresh_cookie)
}

/// The identity that a request establishes at time `now`.
pub fn identify_at(keys: &JwtKeys, req: &RequestParts, now: i64) -> (user: Option<AuthUser>)
    ensures
        match user {
            Some(u) => identify_spec(keys@, req@, now) == Some(u@),
            None => identify_spec(keys@, req@, now) is None,
        },
{
    match access_token(req) {
        Some(token) => match verify_at(keys, token.as_str(), now) {
            Ok(claims) => Some(AuthUser { user_id: claims.sub, role: claims.role }),
            Err(_) => None,
        },
        None => None,
    }
}

/// The identity that a request establishes now.
pub fn identify(keys: &JwtKeys, req: &RequestParts) -> (user: Option<AuthUser>)
    ensures
        exists|now: i64|
            0 <= now <= LATEST_CLOCK && match user {
                Some(u) => #[trigger] identify_spec(keys@, req@, now) == Some(u@),
                None => identify_spec(keys@, req@, now) is None,
            },
{
    let now = now_ts();
    identify_at(keys, req, now)
}

/// Whether the CSRF header and the CSRF cookie are both present and
/// equal.
pub fn csrf_pair_matches(req: &RequestParts) -> (ok: bool)
    ensures
        ok == csrf_pair_spec(req@),
{
    match (&req.csrf_header, &req.csrf_cookie) {
        (Some(header), Some(cookie)) => text_eq(header.as_str(), cookie.as_str()),
        _ => false,
    }
}

/// Accepts a request that carries an access token, in its
/// `Authorization` header or else in its cookie, and a matching CSRF
/// pair; anything less fails closed.
pub fn check_access_and_csrf(req: &RequestParts) -> (r: Result<(), HttpApiError>)
    ensures
        r is Ok <==> access_token_spec(req@) is Some && csrf_pair_spec(req@),
        r matches Err(e) ==> e == HttpApiError::Auth,
{
    if access_token(req).is_none() {
        return Err(HttpApiError::Auth);
    }
    if csrf_pair_matches(req) {
        Ok(())
    } else {
        Err(HttpApiError::Auth)
    }
}

/// What guarding a route at time `now` answers: the identity of a valid
/// access token, provided that a state-changing request also carries a
/// matching CSRF pair.
pub open spec fn authorize_spec(secret: Seq<u8>, req: RequestView, mutating: bool, now: i64) -> Option<
    AuthUserView,
> {
    if mutating && !csrf_pair_spec(req) {
        None
    } else {
        identify_spec(secret, req, now)
    }
}

/// Guards a route at time `now`: the request must establish an identity,
/// and a state-changing one must carry a matching CSRF pair, however
/// valid its access token is.
pub fn authorize_at(keys: &JwtKeys, req: &RequestParts, mutating: bool, now: i64) -> (r: Result<
    AuthUser,
    HttpApiError,
>)
    ensures
        match r {
            Ok(user) => authorize_spec(keys@, req@, mutating, now) == Some(user@),
            Err(e) => e == HttpApiError::Auth && authorize_spec(keys@, req@, mutating, now) is None,
        },
{
    if mutating && !csrf_pair_matches(req) {
        return Err(HttpApiError::Auth);
    }
    match identify_at(keys, req, now) {
        Some(user) => Ok(user),
        None => Err(HttpApiError::Auth),
    }
}

/// Guards a route now.
pub fn authorize(keys: &JwtKeys, req: &RequestParts, mutating: bool) -> (r: Result<
    AuthUser,
    HttpApiError,
>)
    ensures
        exists|now: i64|
            0 <= now <= LATEST_CLOCK && match r {
                Ok(user) => #[trigger] authorize_spec(keys@, req@, mutating, now) == Some(user@),
                Err(e) => e == HttpApiError::Auth && authorize_spec(keys@, req@, mutating, now)
                    is None,
            },
{
    let now = now_ts();
    authorize_at(keys, req, mutating, now)
}

/// The guard in front of the routes of the service.
#[derive(Debug, Clone, Copy, PartialEq, Eq, Structural)]
pub struct Csrf;

/// Whether a path is one of the four authentication routes, which are
/// open to requests without an identity.
pub open spec fn is_auth_route(path: Seq<char>) -> bool {
    path == "/auth/register"@ || path == "/auth/login"@ || path == "/auth/refresh"@ || path
        == "/auth/logout"@
}

/// Whether a request method changes state: every method but `GET`,
/// `HEAD`, `OPTIONS` and `TRACE`.
pub open spec fn is_mutating(method: Seq<char>) -> bool {
    !(method == "GET"@ || method == "HEAD"@ || method == "OPTIONS"@ || method == "TRACE"@)
}

/// What the guard answers at time `now`. An authentication route is let
/// through with whatever identity the request establishes. Every other
/// route needs an identity, and a matching CSRF pair where the method
/// changes state.
pub open spec fn guard_spec(
    secret: Seq<u8>,
    method: Seq<char>,
    path: Seq<char>,
    req: RequestView,
    now: i64,
) -> Result<Option<AuthUserView>, HttpApiError> {
    if is_auth_route(path) {
        Ok(identify_spec(secret, req, now))
    } else {
        match authorize_spec(secret, req, is_mutating(method), now) {
            Some(user) => Ok(Some(user)),
            None => Err(HttpApiError::Auth),
        }
    }
}

impl Csrf {
    /// Whether `path` is one of the four authentication routes.
    pub fn auth_route(path: &str) -> (open: bool)
        ensures
            open == is_auth_route(path@),
    {
        text_eq(path, "/auth/register") || text_eq(path, "/auth/login") || text_eq(
            path,
            "/auth/refresh",
        ) || text_eq(path, "/auth/logout")
    }

    /// Whether `method` changes state.
    pub fn mutating(method: &str) -> (changes: bool)
        ensures
            changes == is_mutating(method@),
    {
        !(text_eq(method, "GET") || text_eq(method, "HEAD") || text_eq(method, "OPTIONS")
            || text_eq(method, "TRACE"))
    }

    /// Lets through or refuses a request at time `now`, and says whose it is.
    pub fn guard_at(&self, keys: &JwtKeys, method: &str, path: &str, req: &RequestParts, now: i64) -> (r:
        Result<Option<AuthUser>, HttpApiError>)
        ensures
            match r {
                Ok(Some(user)) => guard_spec(keys@, method@, path@, req@, now) == Ok::<
                    _,
                    HttpApiError,
                >(Some(user@)),
                Ok(None) => guard_spec(keys@, method@, path@, req@, now) == Ok::<
                    Option<AuthUserView>,
                    HttpApiError,
                >(None),
                Err(e) => e == HttpApiError::Auth && guard_spec(keys@, method@, path@, req@, now)
                    is Err,
            },
    {
        if Csrf::auth_route(path) {
            Ok(identify_at(keys, req, now))
        } else {
            match authorize_at(keys, req, Csrf::mutating(method), now) {
                Ok(user) => Ok(Some(user)),
                Err(e) => Err(e),
            }
        }
    }

    /// Lets through or refuses a request now.
    pub fn guard(&self, keys: &JwtKeys, method: &str, path: &str, req: &RequestParts) -> (r: Result<
        Option<AuthUser>,
        HttpApiError,
    >)
        ensures
            exists|now: i64|
                0 <= now <= LATEST_CLOCK && match r {
                    Ok(Some(user)) => #[trigger] guard_spec(keys@, method@, path@, req@, now)
                        == Ok::<_, HttpApiError>(Some(user@)),
                    Ok(None) => guard_spec(keys@, method@, path@, req@, now) == Ok::<
                        Option<AuthUserView>,
                        HttpApiError,
                    >(None),
                    Err(e) => e == HttpApiError::Auth && guard_spec(
                        keys@,
                        method@,
                        path@,
                        req@,
                        now,
                    ) is Err,
                },
    {
        let now = now_ts();
        self.guard_at(keys, method, path, req, now)
    }
}

/// A state-changing request to a guarded route is refused unless its
/// CSRF header is present and equal to its CSRF cookie, however valid its
/// access token is.
pub proof fn lemma_mutating_needs_csrf_pair(
    secret: Seq<u8>,
    method: Seq<char>,
    path: Seq<char>,
    req: RequestView,
    now: i64,
)
    requires
        is_mutating(method),
        !is_auth_route(path),
        !csrf_pair_spec(req),
    ensures
        guard_spec(secret, method, path, req, now) == Err::<Option<AuthUserView>, _>(
            HttpApiError::Auth,
        ),
        HttpApiError::Auth.status_spec() == 401,
{
}

/// Lets `user` through if it may act in `role`.
pub fn require_role(user: Option<&AuthUser>, role: &str) -> (r: Result<(), AppError>)
    ensures
        r is Ok <==> role_allows(
            match user {
                Some(u) => Some(u@),
                None => None,
            },
            role@,
        ),
        r matches Err(e) ==> e == AppError::Forbidden,
{
    if let Some(u) = user {
        if text_eq(u.role.as_str(), role) || text_eq(u.role.as_str(), "Admin") {
            return Ok(());
        }
    }
    Err(AppError::Forbidden)
}

/// An HTTP-only cookie at path `/`, scoped and secured as the state says.
pub fn session_cookie(state: &AppState, name: &str, value: String) -> (cookie: SetCookie)
    ensures
        cookie@ == session_cookie_spec(state@, name@, value@),
{
    SetCookie {
        name: name.to_owned(),
        value,
        path: String::from_str("/"),
        domain: Some(state.cookie_domain.clone()),
        secure: state.cookie_secure,
        http_only: true,
        max_age: None,
    }
}

/// The cookie that carries a refresh token.
pub fn refresh_cookie(state: &AppState, token: String) -> (cookie: SetCookie)
    ensures
        cookie@ == session_cookie_spec(state@, "refresh_token"@, token@),
{
    session_cookie(state, "refresh_token", token)
}

/// The cookie that makes a client drop the session cookie `name`.
pub fn cleared_cookie(state: &AppState, name: &str) -> (cookie: SetCookie)
    ensures
        cookie@ == cleared_cookie_spec(state@, name@),
{
    SetCookie {
        name: name.to_owned(),
        value: String::from_str(""),
        path: String::from_str("/"),
        domain: Some(state.cookie_domain.clone()),
        secure: state.cookie_secure,
        http_only: true,
        max_age: Some(0),
    }
}

/// The cookie that makes a client drop its CSRF token.
pub fn cleared_csrf_cookie() -> (cookie: SetCookie)
    ensures
        cookie@ == cleared_csrf_spec(),
{
    SetCookie {
        name: String::from_str("csrf_token"),
        value: String::from_str(""),
        path: String::from_str("/"),
        domain: None,
        secure: false,
        http_only: false,
        max_age: Some(0),
    }
}

/// The cookies that end a session on the client: access, refresh and
/// CSRF, each emptied and expired.
pub fn logout_cookies(state: &AppState) -> (cookies: Vec<SetCookie>)
    ensures
        cookie_views(cookies@) == logout_cookies_spec(state@),
{
    let mut cookies: Vec<SetCookie> = Vec::new();
    cookies.push(cleared_cookie(state, "access_token"));
    cookies.push(cleared_cookie(state, "refresh_token"));
    cookies.push(cleared_csrf_cookie());
    assert(cookie_views(cookies@) =~= logout_cookies_spec(state@));
    cookies
}

} // verus!
