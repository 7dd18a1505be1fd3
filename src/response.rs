//! HTTP responses of the three endpoints, from the repository's outcomes.
//! Store failures come out as a generic message with no detail of the store.
use vstd::prelude::*;
use crate::model::{Authenticated, CustomerSummary, ServiceError};
use chrono::DateTime;

verus! {

/// What a response carries.
pub enum Body {
    /// `{success, message}`.
    Message { success: bool, message: &'static str },
    /// `{success: true, message, customer: {id, name}}`.
    LoggedIn { message: &'static str, customer: Authenticated },
    /// The customer listing.
    Listing(Vec<ListedCustomer>),
}

/// A row of the listing as it is sent, with the creation time as text.
pub struct ListedCustomer {
    pub id: i32,
    pub name: String,
    pub tax_id: String,
    pub address: String,
    pub email: String,
    pub created_at: String,
}

/// The text that chrono writes for the UTC date and time `micros`
/// microseconds after the Unix epoch (`2024-05-01 12:30:00.250`), or none
/// where that instant lies outside chrono's range of dates.
pub uninterp spec fn timestamp_text(micros: int) -> Option<Seq<char>>;

/// Relies on chrono's `DateTime::from_timestamp_micros`, which gives `None`
/// outside chrono's range of dates, and on the `Display` of the
/// `NaiveDateTime` that `naive_utc` takes from it: the text depends on
/// `micros` alone.
#[verifier::external_body]
fn format_timestamp(micros: i64) -> (r: Option<String>)
    ensures
        (r is Some) == (timestamp_text(micros as int) is Some),
        r is Some ==> timestamp_text(micros as int) == Some(r->Some_0@),
{
    DateTime::from_timestamp_micros(micros).map(|d| d.naive_utc().to_string())
}

/// The text of a creation time: chrono's, or empty outside its range.
pub open spec fn created_at_text(micros: int) -> Seq<char> {
    match timestamp_text(micros) {
        Some(t) => t,
        None => Seq::empty(),
    }
}

/// `l` is the listing row of `s`.
pub open spec fn lists(l: ListedCustomer, s: CustomerSummary) -> bool {
    &&& l.id == s.id
    &&& l.name@ == s.name@
    &&& l.tax_id@ == s.tax_id@
    &&& l.address@ == s.address@
    &&& l.email@ == s.email@
    &&& l.created_at@ == created_at_text(s.created_at as int)
}

/// The listing row of a customer, its creation time written out.
pub fn listed(s: &CustomerSummary) -> (r: ListedCustomer)
    ensures
        lists(r, *s),
{
    let created_at = match format_timestamp(s.created_at) {
        Some(t) => t,
        None => String::new(),
    };
    ListedCustomer {
        id: s.id,
        name: s.name.clone(),
        tax_id: s.tax_id.clone(),
        address: s.address.clone(),
        email: s.email.clone(),
        created_at,
    }
}

/// The listing rows of customers, in the same order.
pub fn listed_rows(rows: &Vec<CustomerSummary>) -> (r: Vec<ListedCustomer>)
    ensures
        r@.len() == rows@.len(),
        forall|i: int| 0 <= i < r@.len() ==> lists(#[trigger] r@[i], rows@[i]),
{
    let mut out: Vec<ListedCustomer> = Vec::new();
    let mut i: usize = 0;
    while i < rows.len()
        invariant
            i <= rows@.len(),
            out@.len() == i,
            forall|k: int| 0 <= k < i ==> lists(#[trigger] out@[k], rows@[k]),
        decreases rows@.len() - i,
    {
        out.push(listed(&rows[i]));
        i = i + 1;
    }
    out
}

/// An HTTP status and a body.
pub struct Response {
    pub status: u16,
    pub body: Body,
}

pub const OK: u16 = 200;
pub const UNAUTHORIZED: u16 = 401;
pub const CONFLICT: u16 = 409;
pub const INTERNAL_SERVER_ERROR: u16 = 500;
pub const SERVICE_UNAVAILABLE: u16 = 503;

/// The HTTP status of each error kind.
pub open spec fn status_spec(e: ServiceError) -> u16 {
    match e {
        ServiceError::Unavailable => SERVICE_UNAVAILABLE,
        ServiceError::DuplicateEmail => CONFLICT,
        ServiceError::DuplicateTaxId => CONFLICT,
        ServiceError::InvalidCredentials => UNAUTHORIZED,
        ServiceError::StoreError => INTERNAL_SERVER_ERROR,
    }
}

/// The message of each error kind.
pub open spec fn error_text(e: ServiceError) -> Seq<char> {
    match e {
        ServiceError::Unavailable => "database unavailable"@,
        ServiceError::DuplicateEmail => "email already registered"@,
        ServiceError::DuplicateTaxId => "taxId already registered"@,
        ServiceError::InvalidCredentials => "invalid email or password"@,
        ServiceError::StoreError => "internal error"@,
    }
}

/// The message of a successful registration.
pub open spec fn registered_text() -> Seq<char> {
    "registered"@
}

/// The message of a successful login.
pub open spec fn login_ok_text() -> Seq<char> {
    "login ok"@
}

/// The HTTP status of an error kind.
pub fn status_of(e: ServiceError) -> (r: u16)
    ensures
        r == status_spec(e),
{
    match e {
        ServiceError::Unavailable => SERVICE_UNAVAILABLE,
        ServiceError::DuplicateEmail => CONFLICT,
        ServiceError::DuplicateTaxId => CONFLICT,
        ServiceError::InvalidCredentials => UNAUTHORIZED,
        ServiceError::StoreError => INTERNAL_SERVER_ERROR,
    }
}

/// The message of an error kind.
pub fn error_message(e: ServiceError) -> (r: &'static str)
    ensures
        r@ == error_text(e),
{
    match e {
        ServiceError::Unavailable => {
            let m = "database unavailable";
            proof { reveal_strlit("database unavailable"); }
            m
        },
        ServiceError::DuplicateEmail => {
            let m = "email already registered";
            proof { reveal_strlit("email already registered"); }
            m
        },
        ServiceError::DuplicateTaxId => {
            let m = "taxId already registered";
            proof { reveal_strlit("taxId already registered"); }
            m
        },
        ServiceError::InvalidCredentials => {
            let m = "invalid email or password";
            proof { reveal_strlit("invalid email or password"); }
            m
        },
        ServiceError::StoreError => {
            let m = "internal error";
            proof { reveal_strlit("internal error"); }
            m
        },
    }
}

/// The response to an error: its status, and `{success: false, message}`.
pub open spec fn is_error_response(resp: Response, e: ServiceError) -> bool {
    &&& resp.status == status_spec(e)
    &&& resp.body matches Body::Message { success, message } && !success && message@ == error_text(e)
}

/// The response to an error.
pub fn error_response(e: ServiceError) -> (r: Response)
    ensures
        is_error_response(r, e),
{
    Response { status: status_of(e), body: Body::Message { success: false, message: error_message(e) } }
}

/// The response of `POST /register`: 200 with `{success: true, message}`, or
/// the error's response.
pub fn register_response(outcome: Result<(), ServiceError>) -> (r: Response)
    ensures
        outcome is Ok ==> r.status == OK && (r.body matches Body::Message { success, message }
            && success && message@ == registered_text()),
        outcome is Err ==> is_error_response(r, outcome->Err_0),
{
    match outcome {
        Ok(()) => {
            let m = "registered";
            proof { reveal_strlit("registered"); }
            Response { status: OK, body: Body::Message { success: true, message: m } }
        },
        Err(e) => error_response(e),
    }
}

/// The response of `POST /login`: 200 with the customer's id and name, or the
/// error's response.
pub fn login_response(outcome: Result<Authenticated, ServiceError>) -> (r: Response)
    ensures
        outcome is Ok ==> r.status == OK && (r.body matches Body::LoggedIn { message, customer }
            && message@ == login_ok_text() && customer == outcome->Ok_0),
        outcome is Err ==> is_error_response(r, outcome->Err_0),
{
    match outcome {
        Ok(customer) => {
            let m = "login ok";
            proof { reveal_strlit("login ok"); }
            Response { status: OK, body: Body::LoggedIn { message: m, customer } }
        },
        Err(e) => error_response(e),
    }
}

/// The response of `GET /clientes`: 200 with the rows in the same order,
/// or the error's response.
pub fn list_response(outcome: Result<Vec<CustomerSummary>, ServiceError>) -> (r: Response)
    ensures
        outcome is Ok ==> r.status == OK && (r.body matches Body::Listing(listing)
            && listing@.len() == outcome->Ok_0@.len()
            && forall|i: int| 0 <= i < listing@.len() ==> lists(#[trigger] listing@[i], outcome->Ok_0@[i])),
        outcome is Err ==> is_error_response(r, outcome->Err_0),
{
    match outcome {
        Ok(rows) => Response { status: OK, body: Body::Listing(listed_rows(&rows)) },
        Err(e) => error_response(e),
    }
}

} // verus!
