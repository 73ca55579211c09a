//! Signed, timestamped claim sets: HS256 tokens in compact form.
//!
//! Signing and checking the signature are done by `jsonwebtoken`; what a
//! token holds and until when it is valid is decided here.

use crate::error::AuthError;
use base64::Engine;
use rand::RngCore;
use vstd::prelude::*;
use vstd::string::StrSliceExecFns;
use vstd::utf8::encode_utf8;

verus! {

/// The latest second the clock can report.
pub const LATEST_CLOCK: i64 = 185_542_587_187_199;

/// The longest lifetime a token can be given, so that its expiry fits
/// whenever it is signed.
pub const LONGEST_TTL: i64 = 9_223_186_494_267_588_608;

/// The shared secret that signs and verifies tokens.
pub struct JwtKeys {
    secret: Vec<u8>,
}

impl View for JwtKeys {
    type V = Seq<u8>;

    closed spec fn view(&self) -> Seq<u8> {
        self.secret@
    }
}

impl JwtKeys {
    /// Keys whose secret is the UTF-8 bytes of `secret`.
    pub fn from_secret(secret: &str) -> (keys: JwtKeys)
        ensures
            keys@ == encode_utf8(secret@),
    {
        JwtKeys { secret: secret.as_bytes_vec() }
    }
}

impl Clone for JwtKeys {
    fn clone(&self) -> (keys: JwtKeys)
        ensures
            keys@ == self@,
    {
        JwtKeys { secret: self.secret.clone() }
    }
}

/// What a token states: who it is for, in which role, when it was issued,
/// when it expires, and its unique identifier.
#[derive(Debug)]
pub struct Claims {
    pub sub: u128,
    pub role: String,
    pub iat: i64,
    pub exp: i64,
    pub jti: String,
}

/// A claim set as a mathematical value.
pub ghost struct ClaimsView {
    pub sub: u128,
    pub role: Seq<char>,
    pub iat: i64,
    pub exp: i64,
    pub jti: Seq<char>,
}

impl View for Claims {
    type V = ClaimsView;

    open spec fn view(&self) -> ClaimsView {
        ClaimsView { sub: self.sub, role: self.role@, iat: self.iat, exp: self.exp, jti: self.jti@ }
    }
}

impl Clone for Claims {
    fn clone(&self) -> (claims: Claims)
        ensures
            claims@ == self@,
    {
        Claims {
            sub: self.sub,
            role: self.role.clone(),
            iat: self.iat,
            exp: self.exp,
            jti: self.jti.clone(),
        }
    }
}

/// The claims of a token issued at `now` with a lifetime of `ttl_secs`.
pub open spec fn issued_claims(
    user_id: u128,
    role: Seq<char>,
    ttl_secs: i64,
    now: i64,
    jti: Seq<char>,
) -> ClaimsView {
    ClaimsView { sub: user_id, role, iat: now, exp: (now + ttl_secs) as i64, jti }
}

/// The URL-safe base64 text, without padding, of a byte string.
pub uninterp spec fn base64url(bytes: Seq<u8>) -> Seq<char>;

/// Whether a character is of the URL-safe base64 alphabet: a letter, a
/// digit, `-` or `_`.
pub open spec fn is_base64url_char(c: char) -> bool {
    ('A' <= c && c <= 'Z') || ('a' <= c && c <= 'z') || ('0' <= c && c <= '9') || c == '-' || c
        == '_'
}

/// The shape of a token identifier: 22 characters of the URL-safe base64
/// alphabet, which is what 128 bits come to.
pub open spec fn is_jti_text(text: Seq<char>) -> bool {
    text.len() == 22 && forall|i: int| 0 <= i < 22 ==> is_base64url_char(#[trigger] text[i])
}

/// The compact HS256 token that carries `claims` under `secret`, if one
/// can be made.
pub uninterp spec fn hs256_token(secret: Seq<u8>, claims: ClaimsView) -> Option<Seq<char>>;

/// The claims that `token` carries, if its structure is sound and its
/// signature is the HS256 signature under `secret`. Expiry plays no part.
pub uninterp spec fn hs256_claims(secret: Seq<u8>, token: Seq<char>) -> Option<ClaimsView>;

/// What verification at time `now` answers: the claims of a token whose
/// signature holds and that expires after `now`; otherwise one opaque
/// error.
pub open spec fn verify_spec(secret: Seq<u8>, token: Seq<char>, now: i64) -> Result<
    ClaimsView,
    AuthError,
> {
    match hs256_claims(secret, token) {
        Some(claims) => if now < claims.exp {
            Ok(claims)
        } else {
            Err(AuthError::InvalidToken)
        },
        None => Err(AuthError::InvalidToken),
    }
}

/// What signing answers: the token for `claims` beside the claims, or the
/// one error where no token can be made.
pub open spec fn sign_spec(secret: Seq<u8>, claims: ClaimsView) -> Result<
    (Seq<char>, ClaimsView),
    AuthError,
> {
    match hs256_token(secret, claims) {
        Some(token) => Ok((token, claims)),
        None => Err(AuthError::InvalidToken),
    }
}

/// What signing answers at the time `now` under the identifier made of
/// the random bytes `seed`.
pub open spec fn sign_fresh_spec(
    secret: Seq<u8>,
    user_id: u128,
    role: Seq<char>,
    ttl_secs: i64,
    now: i64,
    seed: Seq<u8>,
) -> Result<(Seq<char>, ClaimsView), AuthError> {
    sign_spec(secret, issued_claims(user_id, role, ttl_secs, now, base64url(seed)))
}

/// The error of `jsonwebtoken`, carried from a failed call to where it
/// is mapped to `AuthError`. Nothing is known of what it holds.
#[verifier::external_type_specification]
#[verifier::external_body]
pub struct ExJwtError(jsonwebtoken::errors::Error);

/// The current time in whole seconds since the Unix epoch.
///
/// Trusted: calls `chrono::Utc::now` and `timestamp`. The clock is read as
/// a duration since the epoch, so the result is never negative, and it is
/// built from a day count that fits 32 bits, which bounds it by
/// `LATEST_CLOCK`. Two calls may differ.
#[verifier::external_body]
pub fn now_ts() -> (now: i64)
    ensures
        0 <= now <= LATEST_CLOCK,
{
    chrono::Utc::now().timestamp()
}

/// Sixteen bytes from the thread's random generator.
///
/// Trusted: calls `rand::thread_rng` and `fill_bytes`. Nothing is known of
/// the bytes.
#[verifier::external_body]
pub(crate) fn random_seed() -> (seed: [u8; 16]) {
    let mut seed = [0u8; 16];
    rand::thread_rng().fill_bytes(&mut seed);
    seed
}

/// URL-safe base64 text of sixteen bytes.
///
/// Trusted: calls `encode` of `base64`'s `URL_SAFE_NO_PAD` engine; the
/// text is a function of the bytes alone. Without padding, sixteen bytes
/// come to five groups of four characters and two more, each of the
/// engine's alphabet of letters, digits, `-` and `_`.
#[verifier::external_body]
pub(crate) fn base64url_encode(seed: &[u8; 16]) -> (text: String)
    ensures
        text@ == base64url(seed@),
        is_jti_text(text@),
{
    base64::engine::general_purpose::URL_SAFE_NO_PAD.encode(seed)
}

/// The token for `claims` under `secret`.
///
/// Trusted: calls `jsonwebtoken::encode` with an HS256 header and the
/// claims as a JSON object of `sub` (the identifier in hyphenated form),
/// `role`, `iat`, `exp` and `jti`. The result is a function of secret and
/// claims alone. A token that comes back joins header, payload and
/// signature with dots, and `jsonwebtoken::decode` under the same secret
/// accepts its signature and reads the same claims out of it.
#[verifier::external_body]
pub(crate) fn jwt_encode(secret: &[u8], claims: &Claims) -> (r: Result<
    String,
    jsonwebtoken::errors::Error,
>)
    ensures
        match r {
            Ok(token) => hs256_token(secret@, claims@) == Some(token@),
            Err(_) => hs256_token(secret@, claims@) is None,
        },
        r matches Ok(token) ==> hs256_claims(secret@, token@) == Some(claims@),
        r matches Ok(token) ==> token@.contains('.'),
{
    let mut body = serde_json::Map::new();
    body.insert("sub".into(), uuid::Uuid::from_u128(claims.sub).to_string().into());
    body.insert("role".into(), claims.role.as_str().into());
    body.insert("iat".into(), claims.iat.into());
    body.insert("exp".into(), claims.exp.into());
    body.insert("jti".into(), claims.jti.as_str().into());
    let key = jsonwebtoken::EncodingKey::from_secret(secret);
    jsonwebtoken::encode(&jsonwebtoken::Header::new(jsonwebtoken::Algorithm::HS256), &body, &key)
}

/// The claims that `token` carries under `secret`, whatever its expiry.
///
/// Trusted: calls `jsonwebtoken::decode` for HS256 with the expiry check
/// and the list of required claims switched off, then reads `sub`, `role`,
/// `iat`, `exp` and `jti` out of the JSON object; a claim that is missing
/// or of another type gives `None`. The result is a function of secret and
/// token alone: the clock is not read.
#[verifier::external_body]
pub(crate) fn jwt_decode(secret: &[u8], token: &str) -> (r: Option<Claims>)
    ensures
        match r {
            Some(claims) => hs256_claims(secret@, token@) == Some(claims@),
            None => hs256_claims(secret@, token@) is None,
        },
{
    let mut rules = jsonwebtoken::Validation::new(jsonwebtoken::Algorithm::HS256);
    rules.validate_exp = false;
    rules.required_spec_claims.clear();
    let key = jsonwebtoken::DecodingKey::from_secret(secret);
    let body = jsonwebtoken::decode::<serde_json::Value>(token, &key, &rules).ok()?.claims;
    Some(Claims {
        sub: uuid::Uuid::parse_str(body.get("sub")?.as_str()?).ok()?.as_u128(),
        role: body.get("role")?.as_str()?.to_string(),
        iat: body.get("iat")?.as_i64()?,
        exp: body.get("exp")?.as_i64()?,
        jti: body.get("jti")?.as_str()?.to_string(),
    })
}

/// The token identifier made of the given random bytes.
pub fn jti_from_seed(seed: &[u8; 16]) -> (jti: String)
    ensures
        jti@ == base64url(seed@),
        is_jti_text(jti@),
{
    base64url_encode(seed)
}

/// A fresh token identifier: 128 random bits in URL-safe base64, which
/// come to 22 characters.
pub fn new_jti() -> (jti: String)
    ensures
        exists|seed: Seq<u8>| seed.len() == 16 && jti@ == #[trigger] base64url(seed),
        is_jti_text(jti@),
{
    let seed = random_seed();
    jti_from_seed(&seed)
}

/// Signs the claims for `user_id` in `role`, issued at `now` for
/// `ttl_secs` seconds under the identifier `jti`.
pub fn sign_at(keys: &JwtKeys, user_id: u128, role: &str, ttl_secs: i64, now: i64, jti: String) -> (r:
    Result<(String, Claims), AuthError>)
    requires
        i64::MIN <= now + ttl_secs <= i64::MAX,
    ensures
        match r {
            Ok((token, claims)) => sign_spec(keys@, issued_claims(user_id, role@, ttl_secs, now, jti@))
                == Ok::<_, AuthError>((token@, claims@)),
            Err(e) => sign_spec(keys@, issued_claims(user_id, role@, ttl_secs, now, jti@)) == Err::<
                (Seq<char>, ClaimsView),
                _,
            >(e),
        },
        r matches Ok((token, claims)) ==> hs256_claims(keys@, token@) == Some(claims@),
        r matches Ok((token, claims)) ==> token@.contains('.'),
{
    let claims = Claims { sub: user_id, role: role.to_owned(), iat: now, exp: now + ttl_secs, jti };
    match jwt_encode(keys.secret.as_slice(), &claims) {
        Ok(token) => Ok((token, claims)),
        Err(_) => Err(AuthError::InvalidToken),
    }
}

/// Signs a refresh token for `user_id` in `role` that lives `ttl_secs`
/// seconds from now, under a fresh identifier. Token and claims are those
/// that signing gives for the time read and the identifier drawn, and the
/// call fails only where no token can be made for them.
pub fn sign_refresh(keys: &JwtKeys, user_id: u128, role: &str, ttl_secs: i64) -> (r: Result<
    (String, Claims),
    AuthError,
>)
    requires
        ttl_secs <= LONGEST_TTL,
    ensures
        exists|now: i64, seed: Seq<u8>|
            #![trigger sign_fresh_spec(keys@, user_id, role@, ttl_secs, now, seed)]
            0 <= now <= LATEST_CLOCK && seed.len() == 16 && match r {
                Ok((token, claims)) => sign_fresh_spec(keys@, user_id, role@, ttl_secs, now, seed)
                    == Ok::<_, AuthError>((token@, claims@)),
                Err(e) => sign_fresh_spec(keys@, user_id, role@, ttl_secs, now, seed) == Err::<
                    (Seq<char>, ClaimsView),
                    _,
                >(e),
            },
        match r {
            Ok((token, claims)) => {
                &&& 0 <= claims.iat <= LATEST_CLOCK
                &&& exists|seed: Seq<u8>| seed.len() == 16 && claims.jti@ == #[trigger] base64url(seed)
                &&& is_jti_text(claims.jti@)
                &&& claims@ == issued_claims(user_id, role@, ttl_secs, claims.iat, claims.jti@)
                &&& hs256_token(keys@, claims@) == Some(token@)
                &&& hs256_claims(keys@, token@) == Some(claims@)
                &&& token@.contains('.')
            },
            Err(e) => e == AuthError::InvalidToken,
        },
{
    let now = now_ts();
    let jti = new_jti();
    let ghost seed = choose|seed: Seq<u8>| seed.len() == 16 && jti@ == #[trigger] base64url(seed);
    let r = sign_at(keys, user_id, role, ttl_secs, now, jti);
    assert(match r {
        Ok((token, claims)) => sign_fresh_spec(keys@, user_id, role@, ttl_secs, now, seed) == Ok::<
            _,
            AuthError,
        >((token@, claims@)),
        Err(e) => sign_fresh_spec(keys@, user_id, role@, ttl_secs, now, seed) == Err::<
            (Seq<char>, ClaimsView),
            _,
        >(e),
    });
    r
}

/// Signs an access token for `user_id` in `role` that lives `ttl_secs`
/// seconds from now, under a fresh identifier. The token is the one that
/// signing gives for the time read and the identifier drawn, it carries
/// the claims issued for them, and the call fails only where no token can
/// be made for them.
pub fn sign_access(keys: &JwtKeys, user_id: u128, role: &str, ttl_secs: i64) -> (r: Result<
    String,
    AuthError,
>)
    requires
        ttl_secs <= LONGEST_TTL,
    ensures
        exists|now: i64, seed: Seq<u8>|
            #![trigger sign_fresh_spec(keys@, user_id, role@, ttl_secs, now, seed)]
            0 <= now <= LATEST_CLOCK && seed.len() == 16 && match r {
                Ok(token) => {
                    let claims = issued_claims(user_id, role@, ttl_secs, now, base64url(seed));
                    &&& sign_fresh_spec(keys@, user_id, role@, ttl_secs, now, seed) == Ok::<
                        _,
                        AuthError,
                    >((token@, claims))
                    &&& hs256_claims(keys@, token@) == Some(claims)
                },
                Err(e) => sign_fresh_spec(keys@, user_id, role@, ttl_secs, now, seed) == Err::<
                    (Seq<char>, ClaimsView),
                    _,
                >(e),
            },
        r matches Ok(token) ==> token@.contains('.'),
{
    match sign_refresh(keys, user_id, role, ttl_secs) {
        Ok((token, claims)) => Ok(token),
        Err(e) => Err(e),
    }
}

/// Verifies `token` as of the time `now`: its signature must hold under
/// the keys and its expiry must lie after `now`.
pub fn verify_at(keys: &JwtKeys, token: &str, now: i64) -> (r: Result<Claims, AuthError>)
    ensures
        match r {
            Ok(claims) => verify_spec(keys@, token@, now) == Ok::<_, AuthError>(claims@),
            Err(e) => verify_spec(keys@, token@, now) == Err::<ClaimsView, _>(e),
        },
{
    match jwt_decode(keys.secret.as_slice(), token) {
        Some(claims) => if now < claims.exp {
            Ok(claims)
        } else {
            Err(AuthError::InvalidToken)
        },
        None => Err(AuthError::InvalidToken),
    }
}

/// Verifies `token` as of now. Revocation is not looked at: that is the
/// ledger's part.
pub fn verify(keys: &JwtKeys, token: &str) -> (r: Result<Claims, AuthError>)
    ensures
        exists|now: i64|
            0 <= now <= LATEST_CLOCK && match r {
                Ok(claims) => #[trigger] verify_spec(keys@, token@, now) == Ok::<_, AuthError>(
                    claims@,
                ),
                Err(e) => verify_spec(keys@, token@, now) == Err::<ClaimsView, _>(e),
            },
{
    let now = now_ts();
    verify_at(keys, token, now)
}

/// A token that was signed is accepted at every moment strictly before
/// its expiry and refused at its expiry and after.
pub proof fn lemma_signed_token_valid_until_expiry(
    secret: Seq<u8>,
    claims: ClaimsView,
    token: Seq<char>,
    now: i64,
)
    requires
        hs256_claims(secret, token) == Some(claims),
    ensures
        now < claims.exp ==> verify_spec(secret, token, now) == Ok::<_, AuthError>(claims),
        now >= claims.exp ==> verify_spec(secret, token, now) == Err::<ClaimsView, _>(
            AuthError::InvalidToken,
        ),
{
}

} // verus!
