//! The credential store as the flows see it, kept in memory: principals
//! by registration number and refresh records by token identifier.
//!
//! It states what a persistent store has to do: a registration number and
//! a token identifier are each held once, a record is never deleted, and
//! revoking only ever sets its flag.

use crate::flow::{AnswerView, CallView, StoreAnswer, StoreCall};
use crate::model::{
    DoctorUserRow, DoctorView, NewDoctor, NewDoctorView, NewRefresh, NewRefreshView, RefreshRow,
    RefreshView,
};
use crate::text::text_eq;
use vstd::prelude::*;

verus! {

/// Why the store did not take a row.
#[derive(Debug, Clone, Copy, PartialEq, Eq, Structural)]
pub enum DbError {
    /// A row with the same key is already held.
    Conflict,
    /// The store cannot number another row.
    Failed,
}

/// The most rows a table can be allowed, so that each can be numbered.
pub const TABLE_LIMIT: usize = 0x7fff_ffff;

/// A credential store in memory.
#[derive(Debug)]
pub struct Db {
    doctors: Vec<DoctorUserRow>,
    refresh: Vec<RefreshRow>,
    limit: usize,
}

/// The content of a store: its principals and its refresh records, in
/// the order in which they were created, and the number of rows that
/// each of its tables may hold.
pub ghost struct DbView {
    pub doctors: Seq<DoctorView>,
    pub refresh: Seq<RefreshView>,
    pub limit: nat,
}

impl View for Db {
    type V = DbView;

    closed spec fn view(&self) -> DbView {
        DbView {
            doctors: self.doctors@.map_values(|row: DoctorUserRow| row@),
            refresh: self.refresh@.map_values(|row: RefreshRow| row@),
            limit: self.limit as nat,
        }
    }
}

/// Whether a principal with this registration number is held.
pub open spec fn has_reg_no(rows: Seq<DoctorView>, reg_no: Seq<char>) -> bool {
    exists|i: int| 0 <= i < rows.len() && #[trigger] rows[i].reg_no == reg_no
}

/// Whether a refresh record with this identifier is held.
pub open spec fn has_jti(rows: Seq<RefreshView>, jti: Seq<char>) -> bool {
    exists|i: int| 0 <= i < rows.len() && #[trigger] rows[i].jti == jti
}

/// The principal with this registration number, if one is held.
pub open spec fn find_doctor(rows: Seq<DoctorView>, reg_no: Seq<char>) -> Option<DoctorView> {
    if has_reg_no(rows, reg_no) {
        Some(rows[choose|i: int| 0 <= i < rows.len() && #[trigger] rows[i].reg_no == reg_no])
    } else {
        None
    }
}

/// The refresh record with this identifier, if one is held.
pub open spec fn find_refresh(rows: Seq<RefreshView>, jti: Seq<char>) -> Option<RefreshView> {
    if has_jti(rows, jti) {
        Some(rows[choose|i: int| 0 <= i < rows.len() && #[trigger] rows[i].jti == jti])
    } else {
        None
    }
}

/// The records after the one with this identifier was revoked: its flag
/// is set and nothing else changes.
pub open spec fn revoke_rows(rows: Seq<RefreshView>, jti: Seq<char>) -> Seq<RefreshView> {
    rows.map_values(
        |row: RefreshView|
            if row.jti == jti {
                RefreshView { revoked: true, ..row }
            } else {
                row
            },
    )
}

/// How many records a revocation changes: one where a record with this
/// identifier is held and not yet revoked, else none.
pub open spec fn revoke_count(rows: Seq<RefreshView>, jti: Seq<char>) -> u64 {
    match find_refresh(rows, jti) {
        Some(row) => if row.revoked {
            0
        } else {
            1
        },
        None => 0,
    }
}

/// The row that the store makes of a new principal at time `now`, as the
/// `n`-th of its table.
pub open spec fn doctor_row(new: NewDoctorView, n: nat, now: i64) -> DoctorView {
    DoctorView {
        id: n as u128,
        doctor_id: n as i64,
        rank_name: new.rank_name,
        first_name: Some(new.first_name),
        last_name: Some(new.last_name),
        org_name: new.org_name,
        org_id: new.org_id,
        reg_no: new.reg_no,
        position: new.position,
        birth_date: new.birth_date,
        gender: new.gender,
        doctor_roll: new.doctor_roll,
        created_at: now,
        updated_at: now,
        password_hash: new.password_hash,
        is_active: true,
    }
}

/// The row that the store makes of a new refresh record at time `now`,
/// as the `n`-th of its table: not revoked.
pub open spec fn refresh_row(new: NewRefreshView, n: nat, now: i64) -> RefreshView {
    RefreshView {
        id: n as i64,
        doctor_id: new.doctor_id,
        jti: new.jti,
        token_hash: new.token_hash,
        expires_at: new.expires_at,
        revoked: false,
        created_at: now,
    }
}

impl DbView {
    /// No two principals share a registration number, no two refresh
    /// records share an identifier, every row carries the number of its
    /// place in its table, so that no two rows of a table share an id,
    /// and no table holds more rows than it may.
    pub open spec fn wf(self) -> bool {
        &&& self.limit <= TABLE_LIMIT
        &&& self.doctors.len() <= self.limit
        &&& self.refresh.len() <= self.limit
        &&& forall|i: int|
            0 <= i < self.doctors.len() ==> (#[trigger] self.doctors[i]).id == i + 1
                && self.doctors[i].doctor_id == i + 1
        &&& forall|i: int| 0 <= i < self.refresh.len() ==> (#[trigger] self.refresh[i]).id == i + 1
        &&& forall|i: int, j: int|
            0 <= i < j < self.doctors.len() ==> #[trigger] self.doctors[i].reg_no
                != #[trigger] self.doctors[j].reg_no
        &&& forall|i: int, j: int|
            0 <= i < j < self.refresh.len() ==> #[trigger] self.refresh[i].jti
                != #[trigger] self.refresh[j].jti
    }
}

/// What the store does with a call at time `now`: the store afterwards
/// and its answer.
pub open spec fn answer_spec(store: DbView, call: CallView, now: i64) -> (DbView, AnswerView) {
    match call {
        CallView::FindDoctor(reg_no) => (store, AnswerView::Doctor(find_doctor(store.doctors, reg_no))),
        CallView::InsertDoctor(new) => if has_reg_no(store.doctors, new.reg_no) {
            (store, AnswerView::Conflict)
        } else if store.doctors.len() >= store.limit {
            (store, AnswerView::Failed)
        } else {
            let row = doctor_row(new, store.doctors.len() + 1, now);
            (
                DbView { doctors: store.doctors.push(row), ..store },
                AnswerView::DoctorInserted(row),
            )
        },
        CallView::FindRefresh(jti) => (store, AnswerView::Refresh(find_refresh(store.refresh, jti))),
        CallView::RevokeRefresh(jti) => (
            DbView { refresh: revoke_rows(store.refresh, jti), ..store },
            AnswerView::Revoked(revoke_count(store.refresh, jti)),
        ),
        CallView::InsertRefresh(new) => if has_jti(store.refresh, new.jti) {
            (store, AnswerView::Conflict)
        } else if store.refresh.len() >= store.limit {
            (store, AnswerView::Failed)
        } else {
            (
                DbView {
                    refresh: store.refresh.push(refresh_row(new, store.refresh.len() + 1, now)),
                    ..store
                },
                AnswerView::RefreshInserted,
            )
        },
    }
}

/// In a well-formed table, the record at an index is the one that a
/// lookup of its identifier finds.
pub proof fn lemma_find_refresh_at(rows: Seq<RefreshView>, i: int)
    requires
        0 <= i < rows.len(),
        forall|a: int, b: int|
            0 <= a < b < rows.len() ==> #[trigger] rows[a].jti != #[trigger] rows[b].jti,
    ensures
        find_refresh(rows, rows[i].jti) == Some(rows[i]),
{
    let jti = rows[i].jti;
    assert(has_jti(rows, jti));
    let j = choose|j: int| 0 <= j < rows.len() && #[trigger] rows[j].jti == jti;
    if j < i {
        assert(rows[j].jti != rows[i].jti);
    } else if i < j {
        assert(rows[i].jti != rows[j].jti);
    }
}

/// In a well-formed table, the principal at an index is the one that a
/// lookup of its registration number finds.
pub proof fn lemma_find_doctor_at(rows: Seq<DoctorView>, i: int)
    requires
        0 <= i < rows.len(),
        forall|a: int, b: int|
            0 <= a < b < rows.len() ==> #[trigger] rows[a].reg_no != #[trigger] rows[b].reg_no,
    ensures
        find_doctor(rows, rows[i].reg_no) == Some(rows[i]),
{
    let reg_no = rows[i].reg_no;
    assert(has_reg_no(rows, reg_no));
    let j = choose|j: int| 0 <= j < rows.len() && #[trigger] rows[j].reg_no == reg_no;
    if j < i {
        assert(rows[j].reg_no != rows[i].reg_no);
    } else if i < j {
        assert(rows[i].reg_no != rows[j].reg_no);
    }
}

impl DbView {
    /// Whether `later` can come of this store: no row is deleted, no
    /// principal changes, and a refresh record changes in one way only,
    /// its flag being set.
    pub open spec fn grows_into(self, later: DbView) -> bool {
        &&& later.limit == self.limit
        &&& later.doctors.len() >= self.doctors.len()
        &&& later.refresh.len() >= self.refresh.len()
        &&& forall|i: int|
            0 <= i < self.doctors.len() ==> later.doctors[i] == #[trigger] self.doctors[i]
        &&& forall|i: int|
            0 <= i < self.refresh.len() ==> {
                let before = #[trigger] self.refresh[i];
                let after = later.refresh[i];
                after == before || (!before.revoked && after == RefreshView {
                    revoked: true,
                    ..before
                })
            }
    }
}

/// In a well-formed store no two principals share an id, and no two
/// refresh records do.
pub proof fn lemma_ids_are_unique(store: DbView)
    requires
        store.wf(),
    ensures
        forall|i: int, j: int|
            0 <= i < j < store.doctors.len() ==> (#[trigger] store.doctors[i]).id
                != (#[trigger] store.doctors[j]).id,
        forall|i: int, j: int|
            0 <= i < j < store.refresh.len() ==> (#[trigger] store.refresh[i]).id
                != (#[trigger] store.refresh[j]).id,
{
}

/// Every call leaves a well-formed store well-formed, and the store only
/// grows. A principal that is created gets an id that no principal held
/// before has.
pub proof fn lemma_answer_keeps_store(store: DbView, call: CallView, now: i64)
    requires
        store.wf(),
    ensures
        answer_spec(store, call, now).0.wf(),
        store.grows_into(answer_spec(store, call, now).0),
        answer_spec(store, call, now).1 matches AnswerView::DoctorInserted(row) ==> forall|i: int|
            0 <= i < store.doctors.len() ==> (#[trigger] store.doctors[i]).id != row.id,
{
    let next = answer_spec(store, call, now).0;
    match call {
        CallView::InsertDoctor(new) => {
            if !has_reg_no(store.doctors, new.reg_no) && store.doctors.len() < store.limit {
                assert forall|i: int, j: int| 0 <= i < j < next.doctors.len() implies #[trigger] next.doctors[i].reg_no
                    != #[trigger] next.doctors[j].reg_no by {
                    if j == store.doctors.len() {
                        assert(store.doctors[i].reg_no != new.reg_no);
                    }
                }
            }
        },
        CallView::InsertRefresh(new) => {
            if !has_jti(store.refresh, new.jti) && store.refresh.len() < store.limit {
                assert forall|i: int, j: int| 0 <= i < j < next.refresh.len() implies #[trigger] next.refresh[i].jti
                    != #[trigger] next.refresh[j].jti by {
                    if j == store.refresh.len() {
                        assert(store.refresh[i].jti != new.jti);
                    }
                }
            }
        },
        CallView::RevokeRefresh(jti) => {
            assert forall|i: int, j: int| 0 <= i < j < next.refresh.len() implies #[trigger] next.refresh[i].jti
                != #[trigger] next.refresh[j].jti by {
                assert(store.refresh[i].jti != store.refresh[j].jti);
            }
        },
        _ => {},
    }
}

impl Db {
    pub open spec fn wf(&self) -> bool {
        self@.wf()
    }

    /// An empty store whose tables may each hold `TABLE_LIMIT` rows.
    pub fn new() -> (db: Db)
        ensures
            db.wf(),
            db@ == (DbView { doctors: Seq::empty(), refresh: Seq::empty(), limit: TABLE_LIMIT as nat }),
    {
        Db::bounded(TABLE_LIMIT)
    }

    /// An empty store whose tables may each hold `limit` rows, and never
    /// more than `TABLE_LIMIT`.
    pub fn bounded(limit: usize) -> (db: Db)
        ensures
            db.wf(),
            db@ == (DbView {
                doctors: Seq::empty(),
                refresh: Seq::empty(),
                limit: if limit <= TABLE_LIMIT {
                    limit as nat
                } else {
                    TABLE_LIMIT as nat
                },
            }),
    {
        let db = Db {
            doctors: Vec::new(),
            refresh: Vec::new(),
            limit: if limit <= TABLE_LIMIT {
                limit
            } else {
                TABLE_LIMIT
            },
        };
        assert(db@.doctors =~= Seq::empty());
        assert(db@.refresh =~= Seq::empty());
        db
    }

    /// Performs one call at time `now` and gives the answer.
    pub fn answer(&mut self, call: StoreCall, now: i64) -> (answer: StoreAnswer)
        requires
            old(self).wf(),
        ensures
            final(self).wf(),
            (final(self)@, answer@) == answer_spec(old(self)@, call@, now),
    {
        proof {
            lemma_answer_keeps_store(self@, call@, now);
        }
        match call {
            StoreCall::FindDoctor(reg_no) => StoreAnswer::Doctor(
                find_doctor_by_reg_no(self, reg_no.as_str()),
            ),
            StoreCall::InsertDoctor(new) => match insert_doctor_user(self, new, now) {
                Ok(row) => StoreAnswer::DoctorInserted(row),
                Err(DbError::Conflict) => StoreAnswer::Conflict,
                Err(DbError::Failed) => StoreAnswer::Failed,
            },
            StoreCall::FindRefresh(jti) => StoreAnswer::Refresh(
                get_refresh_by_jti(self, jti.as_str()),
            ),
            StoreCall::RevokeRefresh(jti) => StoreAnswer::Revoked(
                revoke_refresh(self, jti.as_str()),
            ),
            StoreCall::InsertRefresh(new) => match insert_refresh(self, new, now) {
                Ok(()) => StoreAnswer::RefreshInserted,
                Err(DbError::Conflict) => StoreAnswer::Conflict,
                Err(DbError::Failed) => StoreAnswer::Failed,
            },
        }
    }
}

/// The principal with this registration number, if one is held.
pub fn find_doctor_by_reg_no(db: &Db, reg_no: &str) -> (found: Option<DoctorUserRow>)
    requires
        db.wf(),
    ensures
        match found {
            Some(row) => find_doctor(db@.doctors, reg_no@) == Some(row@),
            None => find_doctor(db@.doctors, reg_no@) is None,
        },
        found matches Some(row) ==> row.reg_no@ == reg_no@ && db@.doctors.contains(row@),
        found is Some <==> has_reg_no(db@.doctors, reg_no@),
{
    let mut i: usize = 0;
    while i < db.doctors.len()
        invariant
            i <= db.doctors.len(),
            db.wf(),
            forall|k: int| 0 <= k < i ==> #[trigger] db@.doctors[k].reg_no != reg_no@,
        decreases db.doctors.len() - i,
    {
        if text_eq(db.doctors[i].reg_no.as_str(), reg_no) {
            proof {
                lemma_find_doctor_at(db@.doctors, i as int);
            }
            return Some(db.doctors[i].clone());
        }
        i += 1;
    }
    None
}

/// Creates a principal at time `now`, under an id that no principal
/// held before has. A registration number is held only once: a second
/// one is refused as a conflict.
pub fn insert_doctor_user(db: &mut Db, new: NewDoctor, now: i64) -> (r: Result<DoctorUserRow, DbError>)
    requires
        old(db).wf(),
    ensures
        final(db).wf(),
        r matches Ok(row) ==> forall|i: int|
            0 <= i < old(db)@.doctors.len() ==> (#[trigger] old(db)@.doctors[i]).id != row.id,
        match r {
            Ok(row) => (final(db)@, AnswerView::DoctorInserted(row@)) == answer_spec(
                old(db)@,
                CallView::InsertDoctor(new@),
                now,
            ),
            Err(DbError::Conflict) => (final(db)@, AnswerView::Conflict) == answer_spec(
                old(db)@,
                CallView::InsertDoctor(new@),
                now,
            ),
            Err(DbError::Failed) => (final(db)@, AnswerView::Failed) == answer_spec(
                old(db)@,
                CallView::InsertDoctor(new@),
                now,
            ),
        },
{
    proof {
        lemma_answer_keeps_store(db@, CallView::InsertDoctor(new@), now);
    }
    if find_doctor_by_reg_no(db, new.reg_no.as_str()).is_some() {
        return Err(DbError::Conflict);
    }
    let n = db.doctors.len();
    if n >= db.limit {
        return Err(DbError::Failed);
    }
    let row = DoctorUserRow {
        id: (n + 1) as u128,
        doctor_id: (n + 1) as i64,
        rank_name: new.rank_name,
        first_name: Some(new.first_name),
        last_name: Some(new.last_name),
        org_name: new.org_name,
        org_id: new.org_id,
        reg_no: new.reg_no,
        position: new.position,
        birth_date: new.birth_date,
        gender: new.gender,
        doctor_roll: new.doctor_roll,
        created_at: now,
        updated_at: now,
        password_hash: new.password_hash,
        is_active: true,
    };
    let copy = row.clone();
    db.doctors.push(row);
    assert(db@.doctors =~= old(db)@.doctors.push(copy@));
    assert(db@.refresh =~= old(db)@.refresh);
    Ok(copy)
}

/// The refresh record with this identifier, if one is held.
pub fn get_refresh_by_jti(db: &Db, jti: &str) -> (found: Option<RefreshRow>)
    requires
        db.wf(),
    ensures
        match found {
            Some(row) => find_refresh(db@.refresh, jti@) == Some(row@),
            None => find_refresh(db@.refresh, jti@) is None,
        },
        found matches Some(row) ==> row.jti@ == jti@ && db@.refresh.contains(row@),
        found is Some <==> has_jti(db@.refresh, jti@),
{
    match position_of(db, jti) {
        Some(i) => Some(db.refresh[i].clone()),
        None => None,
    }
}

fn position_of(db: &Db, jti: &str) -> (found: Option<usize>)
    requires
        db.wf(),
    ensures
        match found {
            Some(i) => i < db@.refresh.len() && db@.refresh[i as int].jti == jti@ && find_refresh(
                db@.refresh,
                jti@,
            ) == Some(db@.refresh[i as int]),
            None => !has_jti(db@.refresh, jti@),
        },
{
    let mut i: usize = 0;
    while i < db.refresh.len()
        invariant
            i <= db.refresh.len(),
            db.wf(),
            forall|k: int| 0 <= k < i ==> #[trigger] db@.refresh[k].jti != jti@,
        decreases db.refresh.len() - i,
    {
        if text_eq(db.refresh[i].jti.as_str(), jti) {
            proof {
                lemma_find_refresh_at(db@.refresh, i as int);
            }
            return Some(i);
        }
        i += 1;
    }
    None
}

/// Records a refresh token at time `now`. An identifier is held only
/// once: a second one is refused as a conflict.
pub fn insert_refresh(db: &mut Db, new: NewRefresh, now: i64) -> (r: Result<(), DbError>)
    requires
        old(db).wf(),
    ensures
        final(db).wf(),
        match r {
            Ok(_) => (final(db)@, AnswerView::RefreshInserted) == answer_spec(
                old(db)@,
                CallView::InsertRefresh(new@),
                now,
            ),
            Err(DbError::Conflict) => (final(db)@, AnswerView::Conflict) == answer_spec(
                old(db)@,
                CallView::InsertRefresh(new@),
                now,
            ),
            Err(DbError::Failed) => (final(db)@, AnswerView::Failed) == answer_spec(
                old(db)@,
                CallView::InsertRefresh(new@),
                now,
            ),
        },
{
    proof {
        lemma_answer_keeps_store(db@, CallView::InsertRefresh(new@), now);
    }
    if position_of(db, new.jti.as_str()).is_some() {
        return Err(DbError::Conflict);
    }
    let n = db.refresh.len();
    if n >= db.limit {
        return Err(DbError::Failed);
    }
    let row = RefreshRow {
        id: (n + 1) as i64,
        doctor_id: new.doctor_id,
        jti: new.jti,
        token_hash: new.token_hash,
        expires_at: new.expires_at,
        revoked: false,
        created_at: now,
    };
    let ghost seen = row@;
    db.refresh.push(row);
    assert(db@.refresh =~= old(db)@.refresh.push(seen));
    assert(db@.doctors =~= old(db)@.doctors);
    Ok(())
}

/// Revokes the refresh record with this identifier and counts the
/// records that this changed. Revoking a record that is already revoked,
/// or that is not held, changes none and is no error.
pub fn revoke_refresh(db: &mut Db, jti: &str) -> (changed: u64)
    requires
        old(db).wf(),
    ensures
        final(db).wf(),
        final(db)@ == (DbView { refresh: revoke_rows(old(db)@.refresh, jti@), ..old(db)@ }),
        changed == revoke_count(old(db)@.refresh, jti@),
{
    proof {
        lemma_answer_keeps_store(db@, CallView::RevokeRefresh(jti@), 0);
    }
    match position_of(db, jti) {
        Some(i) => {
            let mut row = db.refresh[i].clone();
            let was = row.revoked;
            row.revoked = true;
            let ghost seen = row@;
            db.refresh.set(i, row);
            proof {
                let before = old(db)@.refresh;
                assert forall|k: int| 0 <= k < before.len() implies #[trigger] db@.refresh[k]
                    == revoke_rows(before, jti@)[k] by {
                    if k != i {
                        if k < i {
                            assert(before[k].jti != before[i as int].jti);
                        } else {
                            assert(before[i as int].jti != before[k].jti);
                        }
                    }
                }
                assert(db@.refresh =~= revoke_rows(before, jti@));
                assert(db@.doctors =~= old(db)@.doctors);
            }
            if was {
                0
            } else {
                1
            }
        },
        None => {
            proof {
                let before = old(db)@.refresh;
                assert forall|k: int| 0 <= k < before.len() implies #[trigger] before[k]
                    == revoke_rows(before, jti@)[k] by {
                    assert(before[k].jti != jti@);
                }
                assert(db@.refresh =~= revoke_rows(before, jti@));
            }
            0
        },
    }
}

} // verus!
