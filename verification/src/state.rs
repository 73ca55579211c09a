//! Settings as they are read at start-up, and the validated, immutable
//! state that the handlers share.

use crate::token::{JwtKeys, LONGEST_TTL};
use vstd::prelude::*;
use vstd::string::StringExecFns;
use vstd::utf8::encode_utf8;

verus! {

/// Lifetime of an access token where none is configured: a quarter of an
/// hour.
pub const DEFAULT_ACCESS_TTL: i64 = 900;

/// Lifetime of a refresh token where none is configured: seven days.
pub const DEFAULT_REFRESH_TTL: i64 = 604_800;

/// The settings of the service; an option left out takes its default.
#[derive(Debug)]
pub struct Settings {
    pub database_url: String,
    pub jwt_secret: String,
    pub access_ttl_seconds: Option<i64>,
    pub refresh_ttl_seconds: Option<i64>,
    pub cookie_domain: Option<String>,
    pub cookie_secure: Option<bool>,
}

/// What every handler needs: the signing keys, the lifetimes of the two
/// kinds of token, and how cookies are scoped.
pub struct AppState {
    pub jwt: JwtKeys,
    pub access_ttl: i64,
    pub refresh_ttl: i64,
    pub cookie_domain: String,
    pub cookie_secure: bool,
}

pub ghost struct AppStateView {
    pub secret: Seq<u8>,
    pub access_ttl: i64,
    pub refresh_ttl: i64,
    pub cookie_domain: Seq<char>,
    pub cookie_secure: bool,
}

impl View for AppState {
    type V = AppStateView;

    open spec fn view(&self) -> AppStateView {
        AppStateView {
            secret: self.jwt@,
            access_ttl: self.access_ttl,
            refresh_ttl: self.refresh_ttl,
            cookie_domain: self.cookie_domain@,
            cookie_secure: self.cookie_secure,
        }
    }
}

impl AppStateView {
    /// Both lifetimes are short enough for an expiry to be computed at
    /// any time the clock can show.
    pub open spec fn wf(self) -> bool {
        self.access_ttl <= LONGEST_TTL && self.refresh_ttl <= LONGEST_TTL
    }
}

/// The lifetime that is in force: the configured one, else the default.
pub open spec fn ttl_or(configured: Option<i64>, default: i64) -> i64 {
    match configured {
        Some(ttl) => ttl,
        None => default,
    }
}

/// The state that settings describe, if their lifetimes are valid.
pub open spec fn state_of(
    secret: Seq<char>,
    access: Option<i64>,
    refresh: Option<i64>,
    domain: Option<Seq<char>>,
    secure: Option<bool>,
) -> Option<AppStateView> {
    let state = AppStateView {
        secret: encode_utf8(secret),
        access_ttl: ttl_or(access, DEFAULT_ACCESS_TTL),
        refresh_ttl: ttl_or(refresh, DEFAULT_REFRESH_TTL),
        cookie_domain: match domain {
            Some(d) => d,
            None => "localhost"@,
        },
        cookie_secure: match secure {
            Some(s) => s,
            None => false,
        },
    };
    if state.wf() {
        Some(state)
    } else {
        None
    }
}

impl AppState {
    pub open spec fn wf(&self) -> bool {
        self@.wf()
    }

    /// Whether both lifetimes are valid.
    pub fn is_valid(&self) -> (ok: bool)
        ensures
            ok == self.wf(),
    {
        self.access_ttl <= LONGEST_TTL && self.refresh_ttl <= LONGEST_TTL
    }

    /// The state for the given settings: access tokens live 900 seconds
    /// and refresh tokens seven days unless configured, cookies are scoped
    /// to `localhost` and not marked secure unless configured. `None`
    /// where a lifetime is longer than `LONGEST_TTL`.
    pub fn from_settings(settings: &Settings) -> (state: Option<AppState>)
        ensures
            match state {
                Some(s) => s.wf() && state_of(
                    settings.jwt_secret@,
                    settings.access_ttl_seconds,
                    settings.refresh_ttl_seconds,
                    settings.cookie_domain.deep_view(),
                    settings.cookie_secure,
                ) == Some(s@),
                None => state_of(
                    settings.jwt_secret@,
                    settings.access_ttl_seconds,
                    settings.refresh_ttl_seconds,
                    settings.cookie_domain.deep_view(),
                    settings.cookie_secure,
                ) is None,
            },
    {
        let state = AppState {
            jwt: JwtKeys::from_secret(settings.jwt_secret.as_str()),
            access_ttl: match settings.access_ttl_seconds {
                Some(ttl) => ttl,
                None => DEFAULT_ACCESS_TTL,
            },
            refresh_ttl: match settings.refresh_ttl_seconds {
                Some(ttl) => ttl,
                None => DEFAULT_REFRESH_TTL,
            },
            cookie_domain: match &settings.cookie_domain {
                Some(d) => d.clone(),
                None => String::from_str("localhost"),
            },
            cookie_secure: match settings.cookie_secure {
                Some(s) => s,
                None => false,
            },
        };
        if state.is_valid() {
            Some(state)
        } else {
            None
        }
    }
}

} // verus!
