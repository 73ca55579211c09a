use auth_session::flow::{StoreAnswer, StoreCall};
use auth_session::model::{NewDoctor, NewRefresh};
use auth_session::store::{
    find_doctor_by_reg_no, get_refresh_by_jti, insert_doctor_user, insert_refresh, revoke_refresh,
    Db, DbError, TABLE_LIMIT,
};

fn doctor(reg_no: &str) -> NewDoctor {
    NewDoctor {
        reg_no: reg_no.into(),
        first_name: "Temuulen".into(),
        last_name: "Bat".into(),
        rank_name: Some("Surgeon".into()),
        org_name: Some("UB Hospital".into()),
        org_id: 1,
        position: Some("Cardio".into()),
        birth_date: Some(726_599),
        gender: Some("male".into()),
        doctor_roll: Some(1),
        password_hash: "$argon2id$hash".into(),
    }
}

fn record(jti: &str, hash: &str) -> NewRefresh {
    NewRefresh { doctor_id: 7, jti: jti.into(), token_hash: hash.into(), expires_at: 5000 }
}

#[test]
fn empty_store_finds_nothing() {
    let db = Db::new();
    assert!(find_doctor_by_reg_no(&db, "DOC-1").is_none());
    assert!(get_refresh_by_jti(&db, "j1").is_none());
}

#[test]
fn inserted_doctor_is_found() {
    let mut db = Db::new();
    let row = insert_doctor_user(&mut db, doctor("DOC-1"), 1000).unwrap();
    assert_eq!(row.id, 1);
    assert_eq!(row.doctor_id, 1);
    assert_eq!(row.reg_no, "DOC-1");
    assert_eq!(row.first_name, Some("Temuulen".to_string()));
    assert_eq!(row.last_name, Some("Bat".to_string()));
    assert_eq!(row.rank_name, Some("Surgeon".to_string()));
    assert_eq!(row.org_name, Some("UB Hospital".to_string()));
    assert_eq!(row.org_id, 1);
    assert_eq!(row.position, Some("Cardio".to_string()));
    assert_eq!(row.birth_date, Some(726_599));
    assert_eq!(row.gender, Some("male".to_string()));
    assert_eq!(row.doctor_roll, Some(1));
    assert_eq!(row.created_at, 1000);
    assert_eq!(row.updated_at, 1000);
    assert_eq!(row.password_hash, "$argon2id$hash");
    assert!(row.is_active);
    let found = find_doctor_by_reg_no(&db, "DOC-1").unwrap();
    assert_eq!(found.id, 1);
    assert_eq!(found.reg_no, "DOC-1");
    assert!(find_doctor_by_reg_no(&db, "DOC-2").is_none());
    assert!(find_doctor_by_reg_no(&db, "doc-1").is_none());
}

#[test]
fn second_doctor_gets_the_next_number() {
    let mut db = Db::new();
    insert_doctor_user(&mut db, doctor("DOC-1"), 1000).unwrap();
    let second = insert_doctor_user(&mut db, doctor("DOC-2"), 1001).unwrap();
    assert_eq!(second.id, 2);
    assert_eq!(second.doctor_id, 2);
    assert_eq!(find_doctor_by_reg_no(&db, "DOC-2").unwrap().created_at, 1001);
    assert_eq!(find_doctor_by_reg_no(&db, "DOC-1").unwrap().id, 1);
}

#[test]
fn duplicate_registration_number_is_a_conflict() {
    let mut db = Db::new();
    insert_doctor_user(&mut db, doctor("DOC-1"), 1000).unwrap();
    assert_eq!(insert_doctor_user(&mut db, doctor("DOC-1"), 1001).unwrap_err(), DbError::Conflict);
    assert_eq!(find_doctor_by_reg_no(&db, "DOC-1").unwrap().created_at, 1000);
}

#[test]
fn inserted_refresh_is_found_unrevoked() {
    let mut db = Db::new();
    assert_eq!(insert_refresh(&mut db, record("j1", "sha256:aa"), 1000), Ok(()));
    let row = get_refresh_by_jti(&db, "j1").unwrap();
    assert_eq!(row.id, 1);
    assert_eq!(row.doctor_id, 7);
    assert_eq!(row.jti, "j1");
    assert_eq!(row.token_hash, "sha256:aa");
    assert_eq!(row.expires_at, 5000);
    assert!(!row.revoked);
    assert_eq!(row.created_at, 1000);
    assert!(get_refresh_by_jti(&db, "j2").is_none());
}

#[test]
fn duplicate_jti_is_a_conflict() {
    let mut db = Db::new();
    insert_refresh(&mut db, record("j1", "sha256:aa"), 1000).unwrap();
    assert_eq!(insert_refresh(&mut db, record("j1", "sha256:bb"), 1001), Err(DbError::Conflict));
    assert_eq!(get_refresh_by_jti(&db, "j1").unwrap().token_hash, "sha256:aa");
}

#[test]
fn revoke_sets_the_flag_once() {
    let mut db = Db::new();
    insert_refresh(&mut db, record("j1", "sha256:aa"), 1000).unwrap();
    insert_refresh(&mut db, record("j2", "sha256:bb"), 1000).unwrap();
    assert_eq!(revoke_refresh(&mut db, "j1"), 1);
    assert!(get_refresh_by_jti(&db, "j1").unwrap().revoked);
    assert!(!get_refresh_by_jti(&db, "j2").unwrap().revoked);
    assert_eq!(revoke_refresh(&mut db, "j1"), 0);
    assert!(get_refresh_by_jti(&db, "j1").unwrap().revoked);
    assert_eq!(get_refresh_by_jti(&db, "j1").unwrap().token_hash, "sha256:aa");
}

#[test]
fn revoking_an_unknown_jti_changes_nothing() {
    let mut db = Db::new();
    insert_refresh(&mut db, record("j1", "sha256:aa"), 1000).unwrap();
    assert_eq!(revoke_refresh(&mut db, "nope"), 0);
    assert!(!get_refresh_by_jti(&db, "j1").unwrap().revoked);
}

#[test]
fn answer_performs_each_call() {
    let mut db = Db::new();
    assert!(matches!(
        db.answer(StoreCall::FindDoctor("DOC-1".into()), 1),
        StoreAnswer::Doctor(None)
    ));
    match db.answer(StoreCall::InsertDoctor(doctor("DOC-1")), 2) {
        StoreAnswer::DoctorInserted(row) => assert_eq!(row.created_at, 2),
        other => panic!("unexpected answer {:?}", other),
    }
    assert!(matches!(
        db.answer(StoreCall::InsertDoctor(doctor("DOC-1")), 3),
        StoreAnswer::Conflict
    ));
    match db.answer(StoreCall::FindDoctor("DOC-1".into()), 4) {
        StoreAnswer::Doctor(Some(row)) => assert_eq!(row.reg_no, "DOC-1"),
        other => panic!("unexpected answer {:?}", other),
    }
    assert!(matches!(
        db.answer(StoreCall::InsertRefresh(record("j1", "sha256:aa")), 5),
        StoreAnswer::RefreshInserted
    ));
    assert!(matches!(
        db.answer(StoreCall::InsertRefresh(record("j1", "sha256:aa")), 5),
        StoreAnswer::Conflict
    ));
    match db.answer(StoreCall::FindRefresh("j1".into()), 6) {
        StoreAnswer::Refresh(Some(row)) => assert!(!row.revoked),
        other => panic!("unexpected answer {:?}", other),
    }
    assert!(matches!(db.answer(StoreCall::FindRefresh("j2".into()), 6), StoreAnswer::Refresh(None)));
    assert!(matches!(db.answer(StoreCall::RevokeRefresh("j1".into()), 7), StoreAnswer::Revoked(1)));
    assert!(matches!(db.answer(StoreCall::RevokeRefresh("j1".into()), 8), StoreAnswer::Revoked(0)));
    assert!(matches!(db.answer(StoreCall::RevokeRefresh("j9".into()), 8), StoreAnswer::Revoked(0)));
}

#[test]
fn full_table_fails_the_insert() {
    let mut db = Db::bounded(1);
    insert_doctor_user(&mut db, doctor("DOC-1"), 1000).unwrap();
    assert_eq!(insert_doctor_user(&mut db, doctor("DOC-2"), 1000).unwrap_err(), DbError::Failed);
    assert_eq!(insert_doctor_user(&mut db, doctor("DOC-1"), 1000).unwrap_err(), DbError::Conflict);
    assert!(find_doctor_by_reg_no(&db, "DOC-2").is_none());
    insert_refresh(&mut db, record("j1", "sha256:aa"), 1000).unwrap();
    assert_eq!(insert_refresh(&mut db, record("j2", "sha256:bb"), 1000), Err(DbError::Failed));
    assert_eq!(insert_refresh(&mut db, record("j1", "sha256:bb"), 1000), Err(DbError::Conflict));
    assert!(get_refresh_by_jti(&db, "j2").is_none());
    assert_eq!(revoke_refresh(&mut db, "j1"), 1);
}

#[test]
fn store_without_room_answers_failed() {
    let mut db = Db::bounded(0);
    assert!(matches!(db.answer(StoreCall::InsertDoctor(doctor("DOC-1")), 1), StoreAnswer::Failed));
    assert!(matches!(
        db.answer(StoreCall::InsertRefresh(record("j1", "sha256:aa")), 1),
        StoreAnswer::Failed
    ));
}

#[test]
fn table_limit_is_capped() {
    assert_eq!(TABLE_LIMIT, 2_147_483_647);
    let mut db = Db::bounded(usize::MAX);
    insert_refresh(&mut db, record("j1", "sha256:aa"), 1000).unwrap();
    assert!(get_refresh_by_jti(&db, "j1").is_some());
}

#[test]
fn every_principal_gets_an_id_of_its_own() {
    let mut db = Db::new();
    let mut seen = Vec::new();
    for n in 0..20 {
        let row = insert_doctor_user(&mut db, doctor(&format!("DOC-{}", n)), 1000).unwrap();
        assert!(!seen.contains(&row.id));
        assert_eq!(row.id, n as u128 + 1);
        assert_eq!(row.doctor_id, n as i64 + 1);
        seen.push(row.id);
    }
    assert!(insert_doctor_user(&mut db, doctor("DOC-3"), 1000).is_err());
    let next = insert_doctor_user(&mut db, doctor("DOC-20"), 1000).unwrap();
    assert_eq!(next.id, 21);
}

#[test]
fn refresh_records_are_numbered_in_order() {
    let mut db = Db::new();
    insert_refresh(&mut db, record("j1", "sha256:aa"), 1000).unwrap();
    insert_refresh(&mut db, record("j2", "sha256:bb"), 1000).unwrap();
    assert!(insert_refresh(&mut db, record("j1", "sha256:cc"), 1000).is_err());
    insert_refresh(&mut db, record("j3", "sha256:cc"), 1000).unwrap();
    assert_eq!(get_refresh_by_jti(&db, "j1").unwrap().id, 1);
    assert_eq!(get_refresh_by_jti(&db, "j2").unwrap().id, 2);
    assert_eq!(get_refresh_by_jti(&db, "j3").unwrap().id, 3);
}
