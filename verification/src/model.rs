//! The records the bank works with.
//!
//! Identifiers are 128-bit UUID values. Money amounts have the type parameter
//! `M`: the library carries amounts from one step to the next and never
//! computes with them; whatever arithmetic or comparison an amount needs is
//! done by the caller and handed back as an event (see `server`).

use vstd::prelude::*;
use chrono::{NaiveDate, NaiveDateTime};

verus! {

/// Dates and times are carried through unchanged; the library never looks into them.
#[verifier::external_type_specification]
#[verifier::external_body]
pub struct ExNaiveDateTime(NaiveDateTime);

/// Calendar dates, read from what a person types, are carried through unchanged too.
#[verifier::external_type_specification]
#[verifier::external_body]
pub struct ExNaiveDate(NaiveDate);

/// A bank account.
#[derive(Debug, PartialEq)]
pub struct Account<M> {
    pub id: u128,
    pub agency: u8,
    pub balance: M,
    pub created_date: NaiveDateTime,
}

/// A bill to be paid to the holder of an account.
#[derive(Debug, PartialEq)]
pub struct Bill<M> {
    pub id: u128,
    pub account_id: u128,
    pub favored_name: String,
    pub value: M,
    pub created_date: NaiveDateTime,
}

/// A registered user, as stored.
#[derive(Debug, PartialEq)]
pub struct User {
    pub id: u128,
    pub account_id: u128,
    pub cpf: String,
    pub password: String,
    pub email: String,
    pub name: String,
    pub address: String,
    pub phone: String,
    pub birthdate: NaiveDateTime,
    pub last_login: Option<NaiveDateTime>,
}

/// What a person fills in to open an account.
#[derive(Debug, PartialEq)]
pub struct NewUser {
    pub name: String,
    pub email: String,
    pub cpf: String,
    pub password: String,
    pub address: String,
    pub phone: String,
    pub birthdate: NaiveDateTime,
}

/// A request that the client sends to the server.
#[derive(Debug, PartialEq)]
pub enum UserAction<M> {
    Login { cpf: String, password: String },
    Logout,
    CloseServerConnection,
    CreateUser(NewUser),
    DeleteUser,
    TransferMoney { dest_cpf: String, value: M },
    GetBillInfo(u128),
    PayBill(u128),
    CreateBill(M),
    GetStatment,
    GetBasicInfo,
}

} // verus!
