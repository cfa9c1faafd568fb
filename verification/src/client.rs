//! What the client makes of what a person types in.

use vstd::prelude::*;
use chrono::{NaiveDate, NaiveDateTime};
use crate::model::NewUser;

verus! {

/// The hour of the day at which a birthdate entered in the account form is stored.
pub const BIRTHDATE_HOUR: u32 = 1;

/// What `NaiveDate::from_str` (chrono) reads from a text; `None` where it fails.
pub uninterp spec fn parsed_date(text: Seq<char>) -> Option<NaiveDate>;

/// What `NaiveDate::and_hms_opt(hour, 0, 0)` (chrono) gives for a date.
pub uninterp spec fn date_at_hour(date: NaiveDate, hour: u32) -> Option<NaiveDateTime>;

/// What `uuid::Uuid::parse_str` reads from a text, as a 128-bit value; `None` where it fails.
pub uninterp spec fn bill_code(text: Seq<char>) -> Option<u128>;

/// Calls `NaiveDate::from_str` (chrono); its error becomes `None`.
#[verifier::external_body]
fn date_from_text(text: &str) -> (date: Option<NaiveDate>)
    ensures
        date == parsed_date(text@),
{
    <NaiveDate as std::str::FromStr>::from_str(text).ok()
}

/// Calls `NaiveDate::and_hms_opt(hour, 0, 0)` (chrono), which its documentation says
/// returns `None` only for an invalid hour, minute or second.
#[verifier::external_body]
fn at_hour(date: NaiveDate, hour: u32) -> (time: Option<NaiveDateTime>)
    ensures
        time == date_at_hour(date, hour),
        hour < 24 ==> time is Some,
{
    date.and_hms_opt(hour, 0, 0)
}

/// Calls `uuid::Uuid::parse_str`; its error becomes `None`.
#[verifier::external_body]
fn uuid_from_text(text: &str) -> (id: Option<u128>)
    ensures
        id == bill_code(text@),
{
    match uuid::Uuid::parse_str(text) {
        Ok(u) => Some(u.as_u128()),
        Err(_) => None,
    }
}

/// Reads the bill code typed in to pay a bill; `None` where it is not a UUID.
pub fn parse_bill_code(text: &str) -> (id: Option<u128>)
    ensures
        id == bill_code(text@),
{
    uuid_from_text(text)
}

/// Fills in the account form: `None` where the birthdate is not a date; otherwise
/// every field in its place and the birthdate at `BIRTHDATE_HOUR` o'clock.
pub fn new_user_from_form(
    name: String,
    email: String,
    birthdate: &str,
    phone: String,
    address: String,
    cpf: String,
    password: String,
) -> (user: Option<NewUser>)
    ensures
        user is Some <==> parsed_date(birthdate@) is Some,
        user matches Some(u) ==> {
            &&& u.name == name
            &&& u.email == email
            &&& u.phone == phone
            &&& u.address == address
            &&& u.cpf == cpf
            &&& u.password == password
            &&& Some(u.birthdate) == date_at_hour(parsed_date(birthdate@)->0, BIRTHDATE_HOUR)
        },
{
    match date_from_text(birthdate) {
        Some(date) => match at_hour(date, BIRTHDATE_HOUR) {
            Some(birthdate) => Some(
                NewUser { name, email, cpf, password, address, phone, birthdate },
            ),
            None => None,
        },
        None => None,
    }
}

} // verus!
