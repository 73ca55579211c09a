use auth_session::digest::refresh_token_hash;
use auth_session::error::AppError;
use auth_session::flow::{Entropy, HttpReply, Pending, ReplyBody, Step, StoreAnswer, StoreCall};
use auth_session::model::{DoctorUserRow, LoginInput, RefreshRow, RegisterInput};
use auth_session::orchestrator::{
    issue, login, logout, logout_at, logout_reply, public_fields, refresh, refresh_at, register,
    resume, resume_with,
};
use auth_session::password::{hash_password, verify_password};
use auth_session::service::{advance, drive, drive_with};
use auth_session::state::AppState;
use auth_session::store::{get_refresh_by_jti, Db};
use auth_session::token::{sign_at, verify, verify_at, JwtKeys};
use auth_session::transport::RequestParts;

fn state() -> AppState {
    AppState {
        jwt: JwtKeys::from_secret("test_secret_key"),
        access_ttl: 3600,
        refresh_ttl: 60 * 60 * 24 * 7,
        cookie_domain: "localhost".into(),
        cookie_secure: false,
    }
}

fn entropy(now: i64, tag: &str) -> Entropy {
    Entropy {
        now,
        salt: "c29tZXNhbHRzb21lc2FsdA".into(),
        access_jti: format!("access-{}", tag),
        refresh_jti: format!("refresh-{}", tag),
    }
}

fn registration(reg_no: &str, password: &str) -> RegisterInput {
    RegisterInput {
        reg_no: reg_no.into(),
        first_name: "Temuulen".into(),
        last_name: "Bat".into(),
        rank_name: Some("Surgeon".into()),
        org_name: Some("UB Hospital".into()),
        org_id: 1,
        position: Some("Cardio".into()),
        birth_date: Some(726_599),
        gender: Some("male".into()),
        doctor_roll: Some(1),
        password: password.into(),
    }
}

fn credentials(reg_no: &str, password: &str) -> LoginInput {
    LoginInput { reg_no: reg_no.into(), password: password.into() }
}

fn with_refresh_cookie(token: &str) -> RequestParts {
    RequestParts {
        authorization: None,
        csrf_header: None,
        access_cookie: None,
        refresh_cookie: Some(token.into()),
        csrf_cookie: None,
    }
}

fn no_cookies() -> RequestParts {
    RequestParts {
        authorization: None,
        csrf_header: None,
        access_cookie: None,
        refresh_cookie: None,
        csrf_cookie: None,
    }
}

fn doctor_row(id: u128, reg_no: &str, password_hash: &str) -> DoctorUserRow {
    DoctorUserRow {
        id,
        doctor_id: 1,
        rank_name: None,
        first_name: Some("Temuulen".into()),
        last_name: Some("Bat".into()),
        org_name: None,
        org_id: 1,
        reg_no: reg_no.into(),
        position: None,
        birth_date: None,
        gender: None,
        doctor_roll: None,
        created_at: 0,
        updated_at: 0,
        password_hash: password_hash.into(),
        is_active: true,
    }
}

fn session_of(reply: &HttpReply) -> (u128, String, String, String) {
    match &reply.body {
        ReplyBody::Session(doctor, tokens) => {
            (doctor.id, tokens.access.clone(), tokens.refresh.clone(), tokens.jti.clone())
        }
        other => panic!("no session in {:?}", other),
    }
}

fn access_of(reply: &HttpReply) -> String {
    match &reply.body {
        ReplyBody::AccessToken(token) => token.clone(),
        other => panic!("no access token in {:?}", other),
    }
}

#[test]
fn test_auth_flow_register_login_refresh_logout() {
    let state = state();
    let mut db = Db::new();

    let reply = drive(&state, &mut db, register(registration("DOC-1", "supersecret"))).unwrap();
    assert!((200..300).contains(&reply.status), "Register endpoint failed");
    let (_, access_token, refresh_token, _) = session_of(&reply);
    assert!(access_token.len() >= 40);
    assert!(refresh_token.len() >= 40);

    let reply = drive(&state, &mut db, login(credentials("DOC-1", "supersecret"))).unwrap();
    assert!((200..300).contains(&reply.status), "Login endpoint failed");
    let (_, new_access, new_refresh, _) = session_of(&reply);
    assert!(new_access.starts_with("ey"), "Invalid JWT access");
    assert!(new_refresh.starts_with("ey"), "Invalid JWT refresh");

    let req = with_refresh_cookie(&new_refresh);
    let reply = drive(&state, &mut db, refresh(&state, &req)).unwrap();
    assert!((200..300).contains(&reply.status), "Refresh endpoint failed");
    assert!(access_of(&reply).starts_with("ey"), "Invalid refreshed access token");

    let reply = drive(&state, &mut db, logout(&state, &req)).unwrap();
    assert!((200..300).contains(&reply.status), "Logout endpoint failed");
}

#[test]
fn register_then_login_gives_a_new_token_pair() {
    let state = state();
    let mut db = Db::new();
    let registered =
        drive(&state, &mut db, register(registration("DOC-1", "supersecret"))).unwrap();
    assert_eq!(registered.status, 201);
    assert!(registered.cookies.is_empty());
    let (id, access, refresh_token, jti) = session_of(&registered);
    match &registered.body {
        ReplyBody::Session(doctor, _) => {
            assert_eq!(doctor.reg_no, "DOC-1");
            assert_eq!(doctor.first_name, Some("Temuulen".to_string()));
            assert_eq!(doctor.last_name, Some("Bat".to_string()));
        }
        other => panic!("no session in {:?}", other),
    }
    let claims = verify(&state.jwt, &refresh_token).unwrap();
    assert_eq!(claims.sub, id);
    assert_eq!(claims.role, "Doctor");
    assert_eq!(claims.jti, jti);
    assert_eq!(claims.exp, claims.iat + 604_800);
    let access_claims = verify(&state.jwt, &access).unwrap();
    assert_eq!(access_claims.sub, id);
    assert_eq!(access_claims.exp, access_claims.iat + 3600);

    let logged_in = drive(&state, &mut db, login(credentials("DOC-1", "supersecret"))).unwrap();
    assert_eq!(logged_in.status, 200);
    let (id2, _, refresh2, jti2) = session_of(&logged_in);
    assert_eq!(id2, id);
    assert_ne!(jti2, jti);
    assert_ne!(refresh2, refresh_token);
    assert!(!get_refresh_by_jti(&db, &jti).unwrap().revoked);
    assert!(!get_refresh_by_jti(&db, &jti2).unwrap().revoked);
}

#[test]
fn registration_stores_a_hash_of_the_password() {
    let state = state();
    let mut db = Db::new();
    drive(&state, &mut db, register(registration("DOC-1", "supersecret"))).unwrap();
    let row = auth_session::store::find_doctor_by_reg_no(&db, "DOC-1").unwrap();
    assert_ne!(row.password_hash, "supersecret");
    assert!(verify_password("supersecret", &row.password_hash));
    assert!(!verify_password("supersecrets", &row.password_hash));
}

#[test]
fn registering_twice_is_a_conflict() {
    let state = state();
    let mut db = Db::new();
    drive(&state, &mut db, register(registration("DOC-1", "supersecret"))).unwrap();
    let second = drive(&state, &mut db, register(registration("DOC-1", "another")));
    assert_eq!(second.unwrap_err(), AppError::Conflict);
    assert_eq!(AppError::Conflict.status_code(), 409);
}

#[test]
fn wrong_password_and_unknown_user_look_alike() {
    let state = state();
    let mut db = Db::new();
    drive(&state, &mut db, register(registration("DOC-1", "supersecret"))).unwrap();
    let wrong = drive(&state, &mut db, login(credentials("DOC-1", "guess"))).unwrap_err();
    let unknown = drive(&state, &mut db, login(credentials("DOC-2", "supersecret"))).unwrap_err();
    assert_eq!(wrong, AppError::Unauthorized);
    assert_eq!(unknown, AppError::Unauthorized);
    assert_eq!(wrong.status_code(), 401);
    assert_eq!(wrong.message(), unknown.message());
}

#[test]
fn ledger_holds_the_hash_and_never_the_token() {
    let state = state();
    let mut db = Db::new();
    let reply = drive(&state, &mut db, register(registration("DOC-1", "supersecret"))).unwrap();
    let (id, _, refresh_token, jti) = session_of(&reply);
    let row = get_refresh_by_jti(&db, &jti).unwrap();
    assert_ne!(row.token_hash, refresh_token);
    assert_eq!(row.token_hash, refresh_token_hash(&refresh_token));
    assert!(row.token_hash.starts_with("sha256:"));
    assert_eq!(row.token_hash.len(), 71);
    assert_eq!(row.doctor_id, id);
    assert!(!row.revoked);
    let claims = verify(&state.jwt, &refresh_token).unwrap();
    assert_eq!(row.expires_at, claims.exp);
}

#[test]
fn rotation_revokes_the_old_record_and_stores_the_new() {
    let state = state();
    let mut db = Db::new();
    let reply = drive(&state, &mut db, register(registration("DOC-1", "supersecret"))).unwrap();
    let (id, _, refresh_token, jti) = session_of(&reply);
    let rotated = drive(&state, &mut db, refresh(&state, &with_refresh_cookie(&refresh_token)));
    let rotated = rotated.unwrap();
    assert_eq!(rotated.status, 200);
    let access = access_of(&rotated);
    let access_claims = verify(&state.jwt, &access).unwrap();
    assert_eq!(access_claims.sub, id);
    assert_eq!(access_claims.role, "Doctor");
    assert_eq!(rotated.cookies.len(), 1);
    let cookie = &rotated.cookies[0];
    assert_eq!(cookie.name, "refresh_token");
    assert_eq!(cookie.path, "/");
    assert_eq!(cookie.domain, Some("localhost".to_string()));
    assert!(cookie.http_only);
    assert!(!cookie.secure);
    assert_ne!(cookie.value, refresh_token);
    let new_claims = verify(&state.jwt, &cookie.value).unwrap();
    assert_eq!(new_claims.sub, id);
    assert_eq!(new_claims.role, "Doctor");
    assert_ne!(new_claims.jti, jti);
    assert!(get_refresh_by_jti(&db, &jti).unwrap().revoked);
    let new_row = get_refresh_by_jti(&db, &new_claims.jti).unwrap();
    assert!(!new_row.revoked);
    assert_eq!(new_row.doctor_id, id);
    assert_eq!(new_row.token_hash, refresh_token_hash(&cookie.value));
}

#[test]
fn reused_refresh_after_rotation_is_unauthorized() {
    let state = state();
    let mut db = Db::new();
    drive(&state, &mut db, register(registration("DOC-1", "supersecret"))).unwrap();
    let reply = drive(&state, &mut db, login(credentials("DOC-1", "supersecret"))).unwrap();
    let (_, _, refresh_token, _) = session_of(&reply);
    let req = with_refresh_cookie(&refresh_token);
    let first = drive(&state, &mut db, refresh(&state, &req));
    assert_eq!(first.unwrap().status, 200);
    let replay = drive(&state, &mut db, refresh(&state, &req));
    assert_eq!(replay.unwrap_err(), AppError::Unauthorized);
    let again = drive(&state, &mut db, refresh(&state, &req));
    assert_eq!(again.unwrap_err().status_code(), 401);
}

#[test]
fn rotated_token_can_be_rotated_in_turn() {
    let state = state();
    let mut db = Db::new();
    let reply = drive(&state, &mut db, register(registration("DOC-1", "supersecret"))).unwrap();
    let (_, _, refresh_token, _) = session_of(&reply);
    let first = drive(&state, &mut db, refresh(&state, &with_refresh_cookie(&refresh_token)));
    let second_token = first.unwrap().cookies[0].value.clone();
    let second = drive(&state, &mut db, refresh(&state, &with_refresh_cookie(&second_token)));
    assert_eq!(second.unwrap().status, 200);
    let replay = drive(&state, &mut db, refresh(&state, &with_refresh_cookie(&second_token)));
    assert_eq!(replay.unwrap_err(), AppError::Unauthorized);
}

#[test]
fn logout_is_idempotent() {
    let state = state();
    let mut db = Db::new();
    let reply = drive(&state, &mut db, register(registration("DOC-1", "supersecret"))).unwrap();
    let (_, _, refresh_token, jti) = session_of(&reply);
    let req = with_refresh_cookie(&refresh_token);
    let first = drive(&state, &mut db, logout(&state, &req)).unwrap();
    assert_eq!(first.status, 200);
    assert!(get_refresh_by_jti(&db, &jti).unwrap().revoked);
    let second = drive(&state, &mut db, logout(&state, &req)).unwrap();
    assert_eq!(second.status, 200);
    assert!(matches!(second.body, ReplyBody::Empty));
    let names: Vec<&str> = second.cookies.iter().map(|c| c.name.as_str()).collect();
    assert_eq!(names, vec!["access_token", "refresh_token", "csrf_token"]);
    assert!(second.cookies.iter().all(|c| c.value.is_empty() && c.max_age == Some(0)));
    assert!(get_refresh_by_jti(&db, &jti).unwrap().revoked);
}

#[test]
fn refresh_after_logout_is_unauthorized() {
    let state = state();
    let mut db = Db::new();
    let reply = drive(&state, &mut db, register(registration("DOC-1", "supersecret"))).unwrap();
    let (_, _, refresh_token, _) = session_of(&reply);
    let req = with_refresh_cookie(&refresh_token);
    drive(&state, &mut db, logout(&state, &req)).unwrap();
    assert_eq!(drive(&state, &mut db, refresh(&state, &req)).unwrap_err(), AppError::Unauthorized);
}

#[test]
fn logout_without_cookie_or_with_garbage_succeeds() {
    let state = state();
    let mut db = Db::new();
    assert!(matches!(logout(&state, &no_cookies()), Step::Done(_)));
    assert!(matches!(logout(&state, &with_refresh_cookie("garbage")), Step::Done(_)));
    assert_eq!(drive(&state, &mut db, logout(&state, &no_cookies())).unwrap().status, 200);
    let expired = sign_at(&state.jwt, 1, "Doctor", 10, 100, "old".into()).unwrap().0;
    assert!(matches!(logout_at(&state, &with_refresh_cookie(&expired), 110), Step::Done(_)));
    assert!(matches!(
        logout_at(&state, &with_refresh_cookie(&expired), 109),
        Step::Ask(StoreCall::RevokeRefresh(_), Pending::LogoutRevoke)
    ));
}

#[test]
fn logout_succeeds_even_if_the_store_fails() {
    let state = state();
    let step = resume_with(&state, Pending::LogoutRevoke, StoreAnswer::Failed, entropy(1, "a"));
    match step {
        Step::Done(reply) => {
            assert_eq!(reply.status, 200);
            assert_eq!(reply.cookies.len(), 3);
        }
        other => panic!("unexpected step {:?}", other),
    }
    assert_eq!(logout_reply(&state).status, 200);
}

#[test]
fn refresh_without_cookie_is_unauthorized() {
    let state = state();
    assert!(matches!(refresh(&state, &no_cookies()), Step::Fail(AppError::Unauthorized)));
    let mut req = no_cookies();
    req.authorization = Some("Bearer something".into());
    req.access_cookie = Some("something".into());
    assert!(matches!(refresh_at(&state, &req, 0), Step::Fail(AppError::Unauthorized)));
}

#[test]
fn refresh_with_bad_or_expired_token_is_unauthorized() {
    let state = state();
    assert!(matches!(
        refresh(&state, &with_refresh_cookie("garbage")),
        Step::Fail(AppError::Unauthorized)
    ));
    let token = sign_at(&state.jwt, 1, "Doctor", 10, 100, "old".into()).unwrap().0;
    assert!(matches!(
        refresh_at(&state, &with_refresh_cookie(&token), 110),
        Step::Fail(AppError::Unauthorized)
    ));
    let other = JwtKeys::from_secret("another");
    let foreign = sign_at(&other, 1, "Doctor", 10, 100, "old".into()).unwrap().0;
    assert!(matches!(
        refresh_at(&state, &with_refresh_cookie(&foreign), 100),
        Step::Fail(AppError::Unauthorized)
    ));
}

#[test]
fn refresh_looks_up_the_jti_of_the_token() {
    let state = state();
    let token = sign_at(&state.jwt, 1, "Doctor", 10, 100, "the-jti".into()).unwrap().0;
    match refresh_at(&state, &with_refresh_cookie(&token), 109) {
        Step::Ask(StoreCall::FindRefresh(jti), Pending::RefreshLookup(kept, claims)) => {
            assert_eq!(jti, "the-jti");
            assert_eq!(kept, token);
            assert_eq!(claims.jti, "the-jti");
            assert_eq!(claims.sub, 1);
        }
        other => panic!("unexpected step {:?}", other),
    }
}

#[test]
fn refresh_of_an_unknown_token_is_unauthorized() {
    let state = state();
    let mut db = Db::new();
    let token = sign_at(&state.jwt, 1, "Doctor", 1000, 100, "never-stored".into()).unwrap().0;
    let step = refresh_at(&state, &with_refresh_cookie(&token), 100);
    assert_eq!(
        drive_with(&state, &mut db, step, &entropy(100, "a")).unwrap_err(),
        AppError::Unauthorized
    );
}

#[test]
fn forged_token_with_a_known_jti_is_unauthorized() {
    let state = state();
    let mut db = Db::new();
    let e = entropy(100, "a");
    let reply = drive_with(&state, &mut db, register(registration("DOC-1", "pw")), &e).unwrap();
    let (_, _, refresh_token, jti) = session_of(&reply);
    assert_eq!(jti, "refresh-a");
    let forged = sign_at(&state.jwt, 999, "Admin", 5000, 100, jti.clone()).unwrap().0;
    assert_ne!(forged, refresh_token);
    let step = refresh_at(&state, &with_refresh_cookie(&forged), 101);
    assert_eq!(
        drive_with(&state, &mut db, step, &entropy(101, "b")).unwrap_err(),
        AppError::Unauthorized
    );
    assert!(!get_refresh_by_jti(&db, &jti).unwrap().revoked);
    let step = refresh_at(&state, &with_refresh_cookie(&refresh_token), 101);
    assert_eq!(drive_with(&state, &mut db, step, &entropy(101, "b")).unwrap().status, 200);
}

#[test]
fn flows_are_deterministic_given_time_salt_and_identifiers() {
    let state = state();
    let mut db = Db::new();
    let e = entropy(1_700_000_000, "x");
    let reply = drive_with(&state, &mut db, register(registration("DOC-1", "pw")), &e).unwrap();
    let (id, access, refresh_token, jti) = session_of(&reply);
    assert_eq!(id, 1);
    assert_eq!(jti, "refresh-x");
    let expected_access =
        sign_at(&state.jwt, 1, "Doctor", 3600, 1_700_000_000, "access-x".into()).unwrap().0;
    let expected_refresh =
        sign_at(&state.jwt, 1, "Doctor", 604_800, 1_700_000_000, "refresh-x".into()).unwrap().0;
    assert_eq!(access, expected_access);
    assert_eq!(refresh_token, expected_refresh);
    let row = get_refresh_by_jti(&db, "refresh-x").unwrap();
    assert_eq!(row.expires_at, 1_700_604_800);
    assert_eq!(row.created_at, 1_700_000_000);
    let claims = verify_at(&state.jwt, &refresh_token, 1_700_604_799).unwrap();
    assert_eq!(claims.exp, 1_700_604_800);
    assert!(verify_at(&state.jwt, &refresh_token, 1_700_604_800).is_err());
}

#[test]
fn identifier_collision_on_rotation_fails_closed() {
    let state = state();
    let mut db = Db::new();
    let e = entropy(100, "same");
    let reply = drive_with(&state, &mut db, register(registration("DOC-1", "pw")), &e).unwrap();
    let (_, _, refresh_token, _) = session_of(&reply);
    let step = refresh_at(&state, &with_refresh_cookie(&refresh_token), 100);
    assert_eq!(drive_with(&state, &mut db, step, &e).unwrap_err(), AppError::Internal);
    let step = refresh_at(&state, &with_refresh_cookie(&refresh_token), 100);
    assert_eq!(
        drive_with(&state, &mut db, step, &entropy(100, "new")).unwrap_err(),
        AppError::Unauthorized
    );
}

#[test]
fn register_asks_for_the_registration_number_first() {
    match register(registration("DOC-1", "pw")) {
        Step::Ask(StoreCall::FindDoctor(reg_no), Pending::RegisterLookup(input)) => {
            assert_eq!(reg_no, "DOC-1");
            assert_eq!(input.password, "pw");
        }
        other => panic!("unexpected step {:?}", other),
    }
}

#[test]
fn register_hashes_the_password_before_inserting() {
    let state = state();
    let step = resume_with(
        &state,
        Pending::RegisterLookup(registration("DOC-1", "supersecret")),
        StoreAnswer::Doctor(None),
        entropy(1, "a"),
    );
    match step {
        Step::Ask(StoreCall::InsertDoctor(new), Pending::RegisterInsert) => {
            assert_eq!(new.reg_no, "DOC-1");
            assert_eq!(new.first_name, "Temuulen");
            assert_eq!(new.last_name, "Bat");
            assert_eq!(new.rank_name, Some("Surgeon".to_string()));
            assert_eq!(new.org_name, Some("UB Hospital".to_string()));
            assert_eq!(new.org_id, 1);
            assert_eq!(new.position, Some("Cardio".to_string()));
            assert_eq!(new.birth_date, Some(726_599));
            assert_eq!(new.gender, Some("male".to_string()));
            assert_eq!(new.doctor_roll, Some(1));
            assert!(new.password_hash.starts_with("$argon2id$"));
            assert!(new.password_hash.contains("$c29tZXNhbHRzb21lc2FsdA$"));
            assert!(verify_password("supersecret", &new.password_hash));
        }
        other => panic!("unexpected step {:?}", other),
    }
}

#[test]
fn register_with_an_unusable_salt_is_internal() {
    let state = state();
    let mut e = entropy(1, "a");
    e.salt = "!".into();
    let step = resume_with(
        &state,
        Pending::RegisterLookup(registration("DOC-1", "supersecret")),
        StoreAnswer::Doctor(None),
        e,
    );
    assert!(matches!(step, Step::Fail(AppError::Internal)));
}

#[test]
fn register_conflicts_on_an_existing_doctor() {
    let state = state();
    let step = resume_with(
        &state,
        Pending::RegisterLookup(registration("DOC-1", "pw")),
        StoreAnswer::Doctor(Some(doctor_row(5, "DOC-1", "x"))),
        entropy(1, "a"),
    );
    assert!(matches!(step, Step::Fail(AppError::Conflict)));
    let raced =
        resume_with(&state, Pending::RegisterInsert, StoreAnswer::Conflict, entropy(1, "a"));
    assert!(matches!(raced, Step::Fail(AppError::Conflict)));
}

#[test]
fn store_failures_are_internal() {
    let state = state();
    let claims = verify_at(
        &state.jwt,
        &sign_at(&state.jwt, 1, "Doctor", 10, 100, "j".into()).unwrap().0,
        100,
    )
    .unwrap();
    let waiting = vec![
        Pending::RegisterLookup(registration("DOC-1", "pw")),
        Pending::RegisterInsert,
        Pending::LoginLookup("pw".into()),
        Pending::SessionStore(
            200,
            public_fields(doctor_row(1, "DOC-1", "x")),
            auth_session::flow::TokenBundle {
                access: "a".into(),
                refresh: "r".into(),
                jti: "j".into(),
            },
        ),
        Pending::RefreshLookup("tok".into(), claims.clone()),
        Pending::RefreshRevoke(claims),
        Pending::RefreshStore("a".into(), "r".into()),
    ];
    for pending in waiting {
        let step = resume_with(&state, pending, StoreAnswer::Failed, entropy(1, "a"));
        assert!(matches!(step, Step::Fail(AppError::Internal)));
    }
}

#[test]
fn unexpected_answers_are_internal() {
    let state = state();
    let step = resume_with(
        &state,
        Pending::LoginLookup("pw".into()),
        StoreAnswer::Revoked(1),
        entropy(1, "a"),
    );
    assert!(matches!(step, Step::Fail(AppError::Internal)));
    let step = resume_with(
        &state,
        Pending::RefreshStore("a".into(), "r".into()),
        StoreAnswer::Conflict,
        entropy(1, "a"),
    );
    assert!(matches!(step, Step::Fail(AppError::Internal)));
}

#[test]
fn login_checks_the_password_against_the_row() {
    let state = state();
    let hash = hash_password("supersecret").unwrap();
    let good = resume_with(
        &state,
        Pending::LoginLookup("supersecret".into()),
        StoreAnswer::Doctor(Some(doctor_row(5, "DOC-1", &hash))),
        entropy(50, "a"),
    );
    match good {
        Step::Ask(StoreCall::InsertRefresh(record), Pending::SessionStore(status, doctor, tokens)) => {
            assert_eq!(status, 200);
            assert_eq!(doctor.id, 5);
            assert_eq!(doctor.reg_no, "DOC-1");
            assert_eq!(record.doctor_id, 5);
            assert_eq!(record.jti, "refresh-a");
            assert_eq!(tokens.jti, "refresh-a");
            assert_eq!(record.expires_at, 50 + 604_800);
            assert_eq!(record.token_hash, refresh_token_hash(&tokens.refresh));
            assert_ne!(record.token_hash, tokens.refresh);
        }
        other => panic!("unexpected step {:?}", other),
    }
    let bad = resume_with(
        &state,
        Pending::LoginLookup("guess".into()),
        StoreAnswer::Doctor(Some(doctor_row(5, "DOC-1", &hash))),
        entropy(50, "a"),
    );
    assert!(matches!(bad, Step::Fail(AppError::Unauthorized)));
    let malformed = resume_with(
        &state,
        Pending::LoginLookup("guess".into()),
        StoreAnswer::Doctor(Some(doctor_row(5, "DOC-1", "not a hash"))),
        entropy(50, "a"),
    );
    assert!(matches!(malformed, Step::Fail(AppError::Unauthorized)));
}

#[test]
fn registration_answers_created() {
    let state = state();
    let step = resume_with(
        &state,
        Pending::RegisterInsert,
        StoreAnswer::DoctorInserted(doctor_row(8, "DOC-8", "x")),
        entropy(50, "a"),
    );
    match step {
        Step::Ask(StoreCall::InsertRefresh(record), Pending::SessionStore(status, doctor, _)) => {
            assert_eq!(status, 201);
            assert_eq!(doctor.id, 8);
            assert_eq!(record.doctor_id, 8);
        }
        other => panic!("unexpected step {:?}", other),
    }
}

#[test]
fn revoked_or_mismatched_records_are_unauthorized() {
    let state = state();
    let token = sign_at(&state.jwt, 1, "Doctor", 10, 100, "j".into()).unwrap().0;
    let claims = verify_at(&state.jwt, &token, 100).unwrap();
    let row = |hash: String, revoked: bool| RefreshRow {
        id: 1,
        doctor_id: 1,
        jti: "j".into(),
        token_hash: hash,
        expires_at: 110,
        revoked,
        created_at: 100,
    };
    let good = resume_with(
        &state,
        Pending::RefreshLookup(token.clone(), claims.clone()),
        StoreAnswer::Refresh(Some(row(refresh_token_hash(&token), false))),
        entropy(100, "a"),
    );
    match good {
        Step::Ask(StoreCall::RevokeRefresh(jti), Pending::RefreshRevoke(kept)) => {
            assert_eq!(jti, "j");
            assert_eq!(kept.sub, 1);
        }
        other => panic!("unexpected step {:?}", other),
    }
    let revoked = resume_with(
        &state,
        Pending::RefreshLookup(token.clone(), claims.clone()),
        StoreAnswer::Refresh(Some(row(refresh_token_hash(&token), true))),
        entropy(100, "a"),
    );
    assert!(matches!(revoked, Step::Fail(AppError::Unauthorized)));
    let mismatch = resume_with(
        &state,
        Pending::RefreshLookup(token.clone(), claims.clone()),
        StoreAnswer::Refresh(Some(row(token.clone(), false))),
        entropy(100, "a"),
    );
    assert!(matches!(mismatch, Step::Fail(AppError::Unauthorized)));
    let missing = resume_with(
        &state,
        Pending::RefreshLookup(token, claims),
        StoreAnswer::Refresh(None),
        entropy(100, "a"),
    );
    assert!(matches!(missing, Step::Fail(AppError::Unauthorized)));
}

#[test]
fn losing_the_revocation_race_is_unauthorized() {
    let state = state();
    let token = sign_at(&state.jwt, 1, "Doctor", 10, 100, "j".into()).unwrap().0;
    let claims = verify_at(&state.jwt, &token, 100).unwrap();
    let lost = resume_with(
        &state,
        Pending::RefreshRevoke(claims.clone()),
        StoreAnswer::Revoked(0),
        entropy(100, "a"),
    );
    assert!(matches!(lost, Step::Fail(AppError::Unauthorized)));
    let won = resume_with(
        &state,
        Pending::RefreshRevoke(claims),
        StoreAnswer::Revoked(1),
        entropy(100, "a"),
    );
    match won {
        Step::Ask(StoreCall::InsertRefresh(record), Pending::RefreshStore(access, new_refresh)) => {
            assert_eq!(record.doctor_id, 1);
            assert_eq!(record.jti, "refresh-a");
            assert_eq!(record.expires_at, 100 + 604_800);
            assert_eq!(record.token_hash, refresh_token_hash(&new_refresh));
            let a = verify_at(&state.jwt, &access, 100).unwrap();
            assert_eq!(a.role, "Doctor");
            assert_eq!(a.jti, "access-a");
            assert_eq!(a.exp, 100 + 3600);
        }
        other => panic!("unexpected step {:?}", other),
    }
}

#[test]
fn issue_signs_both_tokens_and_the_record() {
    let state = state();
    let issued = issue(&state, 77, "Doctor", entropy(1000, "z")).unwrap();
    assert_eq!(issued.jti, "refresh-z");
    assert_eq!(issued.record.jti, "refresh-z");
    assert_eq!(issued.record.doctor_id, 77);
    assert_eq!(issued.record.expires_at, 1000 + 604_800);
    assert_eq!(issued.record.token_hash, refresh_token_hash(&issued.refresh));
    assert_ne!(issued.record.token_hash, issued.refresh);
    assert_eq!(verify_at(&state.jwt, &issued.access, 1000).unwrap().jti, "access-z");
    assert_eq!(verify_at(&state.jwt, &issued.refresh, 1000).unwrap().jti, "refresh-z");
}

#[test]
fn resume_draws_what_it_needs() {
    let state = state();
    let step = resume(
        &state,
        Pending::RegisterLookup(registration("DOC-1", "supersecret")),
        StoreAnswer::Doctor(None),
    );
    match step {
        Step::Ask(StoreCall::InsertDoctor(new), Pending::RegisterInsert) => {
            assert!(verify_password("supersecret", &new.password_hash));
        }
        other => panic!("unexpected step {:?}", other),
    }
    let e = Entropy::draw();
    assert!(e.now > 1_600_000_000);
    assert_ne!(e.access_jti, e.refresh_jti);
    assert_eq!(e.clone().salt, e.salt);
}

#[test]
fn advance_leaves_an_ended_flow_alone() {
    let state = state();
    let mut db = Db::new();
    let e = entropy(1, "a");
    let done = advance(&state, &mut db, Step::Fail(AppError::Forbidden), &e);
    assert!(matches!(done, Step::Fail(AppError::Forbidden)));
    let next = advance(&state, &mut db, login(credentials("DOC-1", "pw")), &e);
    assert!(matches!(next, Step::Fail(AppError::Unauthorized)));
}

#[test]
fn full_store_makes_registration_internal() {
    let state = state();
    let mut db = Db::bounded(0);
    let refused = drive(&state, &mut db, register(registration("DOC-1", "supersecret")));
    assert_eq!(refused.unwrap_err(), AppError::Internal);
    assert_eq!(AppError::Internal.status_code(), 500);
}

#[test]
fn full_ledger_makes_login_internal() {
    let state = state();
    let mut db = Db::bounded(1);
    drive(&state, &mut db, register(registration("DOC-1", "supersecret"))).unwrap();
    let refused = drive(&state, &mut db, login(credentials("DOC-1", "supersecret")));
    assert_eq!(refused.unwrap_err(), AppError::Internal);
}
