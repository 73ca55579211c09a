//! The records the authentication core reads and writes, as plain values.
//!
//! Identifiers are 128-bit numbers, instants are whole seconds since the
//! Unix epoch, and a calendar date is its day number in the common era.

use crate::text::clone_opt;
use vstd::prelude::*;

verus! {

/// The role of a user account.
#[derive(Debug, Clone, Copy, PartialEq, Eq, Structural)]
pub enum Role {
    Admin,
    User,
}

impl Default for Role {
    fn default() -> (role: Role)
        ensures
            role == Role::User,
    {
        Role::User
    }
}

/// A principal as the credential store holds it.
#[derive(Debug)]
pub struct DoctorUserRow {
    pub id: u128,
    pub doctor_id: i64,
    pub rank_name: Option<String>,
    pub first_name: Option<String>,
    pub last_name: Option<String>,
    pub org_name: Option<String>,
    pub org_id: i32,
    pub reg_no: String,
    pub position: Option<String>,
    pub birth_date: Option<i32>,
    pub gender: Option<String>,
    pub doctor_roll: Option<i32>,
    pub created_at: i64,
    pub updated_at: i64,
    pub password_hash: String,
    pub is_active: bool,
}

pub ghost struct DoctorView {
    pub id: u128,
    pub doctor_id: i64,
    pub rank_name: Option<Seq<char>>,
    pub first_name: Option<Seq<char>>,
    pub last_name: Option<Seq<char>>,
    pub org_name: Option<Seq<char>>,
    pub org_id: i32,
    pub reg_no: Seq<char>,
    pub position: Option<Seq<char>>,
    pub birth_date: Option<i32>,
    pub gender: Option<Seq<char>>,
    pub doctor_roll: Option<i32>,
    pub created_at: i64,
    pub updated_at: i64,
    pub password_hash: Seq<char>,
    pub is_active: bool,
}

impl View for DoctorUserRow {
    type V = DoctorView;

    open spec fn view(&self) -> DoctorView {
        DoctorView {
            id: self.id,
            doctor_id: self.doctor_id,
            rank_name: self.rank_name.deep_view(),
            first_name: self.first_name.deep_view(),
            last_name: self.last_name.deep_view(),
            org_name: self.org_name.deep_view(),
            org_id: self.org_id,
            reg_no: self.reg_no@,
            position: self.position.deep_view(),
            birth_date: self.birth_date,
            gender: self.gender.deep_view(),
            doctor_roll: self.doctor_roll,
            created_at: self.created_at,
            updated_at: self.updated_at,
            password_hash: self.password_hash@,
            is_active: self.is_active,
        }
    }
}

impl Clone for DoctorUserRow {
    fn clone(&self) -> (row: DoctorUserRow)
        ensures
            row@ == self@,
    {
        DoctorUserRow {
            id: self.id,
            doctor_id: self.doctor_id,
            rank_name: clone_opt(&self.rank_name),
            first_name: clone_opt(&self.first_name),
            last_name: clone_opt(&self.last_name),
            org_name: clone_opt(&self.org_name),
            org_id: self.org_id,
            reg_no: self.reg_no.clone(),
            position: clone_opt(&self.position),
            birth_date: self.birth_date,
            gender: clone_opt(&self.gender),
            doctor_roll: self.doctor_roll,
            created_at: self.created_at,
            updated_at: self.updated_at,
            password_hash: self.password_hash.clone(),
            is_active: self.is_active,
        }
    }
}

/// What a registration request carries.
#[derive(Debug)]
pub struct RegisterInput {
    pub reg_no: String,
    pub first_name: String,
    pub last_name: String,
    pub rank_name: Option<String>,
    pub org_name: Option<String>,
    pub org_id: i32,
    pub position: Option<String>,
    pub birth_date: Option<i32>,
    pub gender: Option<String>,
    pub doctor_roll: Option<i32>,
    pub password: String,
}

pub ghost struct RegisterView {
    pub reg_no: Seq<char>,
    pub first_name: Seq<char>,
    pub last_name: Seq<char>,
    pub rank_name: Option<Seq<char>>,
    pub org_name: Option<Seq<char>>,
    pub org_id: i32,
    pub position: Option<Seq<char>>,
    pub birth_date: Option<i32>,
    pub gender: Option<Seq<char>>,
    pub doctor_roll: Option<i32>,
    pub password: Seq<char>,
}

impl View for RegisterInput {
    type V = RegisterView;

    open spec fn view(&self) -> RegisterView {
        RegisterView {
            reg_no: self.reg_no@,
            first_name: self.first_name@,
            last_name: self.last_name@,
            rank_name: self.rank_name.deep_view(),
            org_name: self.org_name.deep_view(),
            org_id: self.org_id,
            position: self.position.deep_view(),
            birth_date: self.birth_date,
            gender: self.gender.deep_view(),
            doctor_roll: self.doctor_roll,
            password: self.password@,
        }
    }
}

/// What a login request carries.
#[derive(Debug)]
pub struct LoginInput {
    pub reg_no: String,
    pub password: String,
}

/// A principal to be created: the registration fields with the password
/// replaced by its hash.
#[derive(Debug)]
pub struct NewDoctor {
    pub reg_no: String,
    pub first_name: String,
    pub last_name: String,
    pub rank_name: Option<String>,
    pub org_name: Option<String>,
    pub org_id: i32,
    pub position: Option<String>,
    pub birth_date: Option<i32>,
    pub gender: Option<String>,
    pub doctor_roll: Option<i32>,
    pub password_hash: String,
}

pub ghost struct NewDoctorView {
    pub reg_no: Seq<char>,
    pub first_name: Seq<char>,
    pub last_name: Seq<char>,
    pub rank_name: Option<Seq<char>>,
    pub org_name: Option<Seq<char>>,
    pub org_id: i32,
    pub position: Option<Seq<char>>,
    pub birth_date: Option<i32>,
    pub gender: Option<Seq<char>>,
    pub doctor_roll: Option<i32>,
    pub password_hash: Seq<char>,
}

impl View for NewDoctor {
    type V = NewDoctorView;

    open spec fn view(&self) -> NewDoctorView {
        NewDoctorView {
            reg_no: self.reg_no@,
            first_name: self.first_name@,
            last_name: self.last_name@,
            rank_name: self.rank_name.deep_view(),
            org_name: self.org_name.deep_view(),
            org_id: self.org_id,
            position: self.position.deep_view(),
            birth_date: self.birth_date,
            gender: self.gender.deep_view(),
            doctor_roll: self.doctor_roll,
            password_hash: self.password_hash@,
        }
    }
}

/// The principal that a registration asks for, once its password is
/// hashed.
pub open spec fn new_doctor_spec(input: RegisterView, password_hash: Seq<char>) -> NewDoctorView {
    NewDoctorView {
        reg_no: input.reg_no,
        first_name: input.first_name,
        last_name: input.last_name,
        rank_name: input.rank_name,
        org_name: input.org_name,
        org_id: input.org_id,
        position: input.position,
        birth_date: input.birth_date,
        gender: input.gender,
        doctor_roll: input.doctor_roll,
        password_hash,
    }
}

impl NewDoctor {
    /// The principal that `input` asks for, with `password_hash` in place
    /// of the password.
    pub fn from_input(input: RegisterInput, password_hash: String) -> (new: NewDoctor)
        ensures
            new@ == new_doctor_spec(input@, password_hash@),
    {
        NewDoctor {
            reg_no: input.reg_no,
            first_name: input.first_name,
            last_name: input.last_name,
            rank_name: input.rank_name,
            org_name: input.org_name,
            org_id: input.org_id,
            position: input.position,
            birth_date: input.birth_date,
            gender: input.gender,
            doctor_roll: input.doctor_roll,
            password_hash,
        }
    }
}

/// A refresh token as the ledger holds it: never the token, only its
/// hash.
#[derive(Debug)]
pub struct RefreshRow {
    pub id: i64,
    pub doctor_id: u128,
    pub jti: String,
    pub token_hash: String,
    pub expires_at: i64,
    pub revoked: bool,
    pub created_at: i64,
}

pub ghost struct RefreshView {
    pub id: i64,
    pub doctor_id: u128,
    pub jti: Seq<char>,
    pub token_hash: Seq<char>,
    pub expires_at: i64,
    pub revoked: bool,
    pub created_at: i64,
}

impl View for RefreshRow {
    type V = RefreshView;

    open spec fn view(&self) -> RefreshView {
        RefreshView {
            id: self.id,
            doctor_id: self.doctor_id,
            jti: self.jti@,
            token_hash: self.token_hash@,
            expires_at: self.expires_at,
            revoked: self.revoked,
            created_at: self.created_at,
        }
    }
}

impl Clone for RefreshRow {
    fn clone(&self) -> (row: RefreshRow)
        ensures
            row@ == self@,
    {
        RefreshRow {
            id: self.id,
            doctor_id: self.doctor_id,
            jti: self.jti.clone(),
            token_hash: self.token_hash.clone(),
            expires_at: self.expires_at,
            revoked: self.revoked,
            created_at: self.created_at,
        }
    }
}

/// A refresh token to be recorded.
#[derive(Debug)]
pub struct NewRefresh {
    pub doctor_id: u128,
    pub jti: String,
    pub token_hash: String,
    pub expires_at: i64,
}

pub ghost struct NewRefreshView {
    pub doctor_id: u128,
    pub jti: Seq<char>,
    pub token_hash: Seq<char>,
    pub expires_at: i64,
}

impl View for NewRefresh {
    type V = NewRefreshView;

    open spec fn view(&self) -> NewRefreshView {
        NewRefreshView {
            doctor_id: self.doctor_id,
            jti: self.jti@,
            token_hash: self.token_hash@,
            expires_at: self.expires_at,
        }
    }
}

/// The identity that a verified access token establishes.
#[derive(Debug)]
pub struct AuthUser {
    pub user_id: u128,
    pub role: String,
}

pub ghost struct AuthUserView {
    pub user_id: u128,
    pub role: Seq<char>,
}

impl View for AuthUser {
    type V = AuthUserView;

    open spec fn view(&self) -> AuthUserView {
        AuthUserView { user_id: self.user_id, role: self.role@ }
    }
}

impl Clone for AuthUser {
    fn clone(&self) -> (user: AuthUser)
        ensures
            user@ == self@,
    {
        AuthUser { user_id: self.user_id, role: self.role.clone() }
    }
}

} // verus!
