//! The customer entity, the requests that reach the service, and its errors.
use vstd::prelude::*;

verus! {

/// The error kinds that a request may end in.
#[derive(Clone, Copy, Debug, PartialEq, Eq, Structural)]
pub enum ServiceError {
    /// No live store connection.
    Unavailable,
    /// A customer with the same email already exists.
    DuplicateEmail,
    /// A customer with the same tax id already exists.
    DuplicateTaxId,
    /// No customer matches the email and password.
    InvalidCredentials,
    /// A query or an insert failed in the store.
    StoreError,
}

/// A failed round trip to the store; what went wrong is reported where the
/// store is driven, never to the caller.
#[derive(Clone, Copy, Debug, PartialEq, Eq, Structural)]
pub struct StoreFailure;

/// A register payload.
#[derive(Clone, Debug)]
pub struct NewCustomer {
    pub name: String,
    pub tax_id: String,
    pub address: String,
    pub email: String,
    pub password: String,
}

/// A login payload.
#[derive(Clone, Debug)]
pub struct Credentials {
    pub email: String,
    pub password: String,
}

/// What a successful login reveals of the customer.
#[derive(Clone, Debug)]
pub struct Authenticated {
    pub id: i32,
    pub name: String,
}

/// A row of the customer listing: every column but the password.
/// `created_at` is in microseconds since the Unix epoch.
#[derive(Clone, Debug)]
pub struct CustomerSummary {
    pub id: i32,
    pub name: String,
    pub tax_id: String,
    pub address: String,
    pub email: String,
    pub created_at: i64,
}

/// A stored customer, password included.
#[derive(Clone, Debug)]
pub struct StoredCustomer {
    pub id: i32,
    pub name: String,
    pub tax_id: String,
    pub address: String,
    pub email: String,
    pub password: String,
    pub created_at: i64,
}

/// `s` lists the customer `c` without its password.
pub open spec fn summarizes(s: CustomerSummary, c: StoredCustomer) -> bool {
    &&& s.id == c.id
    &&& s.name@ == c.name@
    &&& s.tax_id@ == c.tax_id@
    &&& s.address@ == c.address@
    &&& s.email@ == c.email@
    &&& s.created_at == c.created_at
}

impl StoredCustomer {
    /// The listing row of this customer.
    pub fn summary(&self) -> (r: CustomerSummary)
        ensures
            summarizes(r, *self),
    {
        CustomerSummary {
            id: self.id,
            name: self.name.clone(),
            tax_id: self.tax_id.clone(),
            address: self.address.clone(),
            email: self.email.clone(),
            created_at: self.created_at,
        }
    }

    /// What a login as this customer returns.
    pub fn authenticated(&self) -> (r: Authenticated)
        ensures
            r.id == self.id,
            r.name@ == self.name@,
    {
        Authenticated { id: self.id, name: self.name.clone() }
    }
}

} // verus!
