//! An in-memory customer store with the repository's rules: unique emails and
//! tax ids, ids handed out in increasing order and never reused, listing by
//! ascending id without passwords, and login by exact email and password.
use vstd::prelude::*;
use crate::model::{
    Authenticated, CustomerSummary, NewCustomer, ServiceError, StoredCustomer, summarizes,
};

verus! {

/// The largest id that the store can hand out, as with a 32-bit serial column.
pub const MAX_ID: i64 = 0x7fff_ffff;

/// Some stored customer has this email.
pub open spec fn email_taken(rows: Seq<StoredCustomer>, email: Seq<char>) -> bool {
    exists|i: int| 0 <= i < rows.len() && (#[trigger] rows[i]).email@ == email
}

/// Some stored customer has this tax id.
pub open spec fn tax_id_taken(rows: Seq<StoredCustomer>, tax_id: Seq<char>) -> bool {
    exists|i: int| 0 <= i < rows.len() && (#[trigger] rows[i]).tax_id@ == tax_id
}

/// Row `i` holds this email and this password.
pub open spec fn matches_at(rows: Seq<StoredCustomer>, i: int, email: Seq<char>, password: Seq<char>) -> bool {
    0 <= i < rows.len() && rows[i].email@ == email && rows[i].password@ == password
}

/// The uniqueness rules decide a registration: a taken email wins over a taken
/// tax id.
pub open spec fn register_decision(email_is_taken: bool, tax_id_is_taken: bool) -> Result<(), ServiceError> {
    if email_is_taken {
        Err(ServiceError::DuplicateEmail)
    } else if tax_id_is_taken {
        Err(ServiceError::DuplicateTaxId)
    } else {
        Ok(())
    }
}

/// The record that a registration of `c` with id `id` at time `now` stores.
pub open spec fn new_record(c: NewCustomer, id: int, now: i64) -> StoredCustomer {
    StoredCustomer {
        id: id as i32,
        name: c.name,
        tax_id: c.tax_id,
        address: c.address,
        email: c.email,
        password: c.password,
        created_at: now,
    }
}

/// What a registration of `c` at time `now` does to the store `pre`, leaving
/// `post` and returning `r`.
pub open spec fn register_post(
    pre: MemoryStore,
    post: MemoryStore,
    c: NewCustomer,
    now: i64,
    r: Result<(), ServiceError>,
) -> bool {
    let decided = register_decision(email_taken(pre.rows(), c.email@), tax_id_taken(pre.rows(), c.tax_id@));
    &&& if decided is Err {
        r == decided
    } else if pre.next_id() > MAX_ID {
        r == Err::<(), ServiceError>(ServiceError::StoreError)
    } else {
        r is Ok
    }
    &&& r is Ok ==> post.rows() == pre.rows().push(new_record(c, pre.next_id(), now))
    &&& r is Ok ==> post.next_id() == pre.next_id() + 1
    &&& r is Err ==> post == pre
}

/// What a login with `email` and `password` on `store` returns.
pub open spec fn login_post(store: MemoryStore, email: Seq<char>, password: Seq<char>, r: Result<Authenticated, ServiceError>) -> bool {
    &&& (r is Ok) == (exists|i: int| matches_at(store.rows(), i, email, password))
    &&& r is Err ==> r == Err::<Authenticated, ServiceError>(ServiceError::InvalidCredentials)
    &&& r is Ok ==> exists|i: int|
        #[trigger] matches_at(store.rows(), i, email, password)
        && r->Ok_0.id == store.rows()[i].id
        && r->Ok_0.name@ == store.rows()[i].name@
}

/// `listed` is the listing of `store`: one row per customer, in the store's
/// order, which is by ascending id.
pub open spec fn list_post(store: MemoryStore, listed: Seq<CustomerSummary>) -> bool {
    &&& listed.len() == store.rows().len()
    &&& forall|i: int| 0 <= i < listed.len() ==> summarizes(#[trigger] listed[i], store.rows()[i])
    &&& forall|i: int, j: int| 0 <= i < j < listed.len() ==> #[trigger] listed[i].id < #[trigger] listed[j].id
}

/// The store's customers, in order of insertion, and the next id it hands out.
pub struct MemoryStore {
    rows: Vec<StoredCustomer>,
    next_id: i64,
}

impl MemoryStore {
    pub closed spec fn rows(&self) -> Seq<StoredCustomer> {
        self.rows@
    }

    pub closed spec fn next_id(&self) -> int {
        self.next_id as int
    }

    /// Ids are positive, below the next id, strictly increasing in insertion
    /// order; emails and tax ids are unique.
    pub open spec fn wf(&self) -> bool {
        &&& 1 <= self.next_id() <= MAX_ID + 1
        &&& forall|i: int| 0 <= i < self.rows().len() ==> 1 <= #[trigger] self.rows()[i].id < self.next_id()
        &&& forall|i: int, j: int| 0 <= i < j < self.rows().len()
            ==> #[trigger] self.rows()[i].id < #[trigger] self.rows()[j].id
        &&& forall|i: int, j: int| 0 <= i < j < self.rows().len()
            ==> (#[trigger] self.rows()[i]).email@ != (#[trigger] self.rows()[j]).email@
        &&& forall|i: int, j: int| 0 <= i < j < self.rows().len()
            ==> (#[trigger] self.rows()[i]).tax_id@ != (#[trigger] self.rows()[j]).tax_id@
    }

    /// An empty store whose first id is 1.
    pub fn new() -> (r: MemoryStore)
        ensures
            r.wf(),
            r.rows() =~= Seq::<StoredCustomer>::empty(),
            r.next_id() == 1,
    {
        MemoryStore { rows: Vec::new(), next_id: 1 }
    }

    /// Number of stored customers.
    pub fn len(&self) -> (r: usize)
        ensures
            r == self.rows().len(),
    {
        self.rows.len()
    }

    /// Whether some customer has this email.
    pub fn has_email(&self, email: &String) -> (r: bool)
        ensures
            r == email_taken(self.rows(), email@),
    {
        let mut i: usize = 0;
        while i < self.rows.len()
            invariant
                i <= self.rows@.len(),
                forall|k: int| 0 <= k < i ==> (#[trigger] self.rows@[k]).email@ != email@,
            decreases self.rows@.len() - i,
        {
            if self.rows[i].email == *email {
                return true;
            }
            i = i + 1;
        }
        false
    }

    /// Whether some customer has this tax id.
    pub fn has_tax_id(&self, tax_id: &String) -> (r: bool)
        ensures
            r == tax_id_taken(self.rows(), tax_id@),
    {
        let mut i: usize = 0;
        while i < self.rows.len()
            invariant
                i <= self.rows@.len(),
                forall|k: int| 0 <= k < i ==> (#[trigger] self.rows@[k]).tax_id@ != tax_id@,
            decreases self.rows@.len() - i,
        {
            if self.rows[i].tax_id == *tax_id {
                return true;
            }
            i = i + 1;
        }
        false
    }

    /// Registers `c` at time `now`: a taken email gives `DuplicateEmail`, else a
    /// taken tax id gives `DuplicateTaxId`, else the customer is stored with the
    /// next id, or `StoreError` once the ids are used up.
    pub fn register(&mut self, c: NewCustomer, now: i64) -> (r: Result<(), ServiceError>)
        requires
            old(self).wf(),
        ensures
            final(self).wf(),
            register_post(*old(self), *final(self), c, now, r),
    {
        if self.has_email(&c.email) {
            return Err(ServiceError::DuplicateEmail);
        }
        if self.has_tax_id(&c.tax_id) {
            return Err(ServiceError::DuplicateTaxId);
        }
        if self.next_id > MAX_ID {
            return Err(ServiceError::StoreError);
        }
        let ghost before = self.rows@;
        let id = self.next_id as i32;
        let record = StoredCustomer {
            id,
            name: c.name,
            tax_id: c.tax_id,
            address: c.address,
            email: c.email,
            password: c.password,
            created_at: now,
        };
        self.rows.push(record);
        self.next_id = self.next_id + 1;
        assert(self.rows@ =~= before.push(new_record(c, old(self).next_id(), now)));
        assert forall|i: int, j: int| 0 <= i < j < self.rows().len() implies
            (#[trigger] self.rows()[i]).email@ != (#[trigger] self.rows()[j]).email@ by {
            if j == before.len() {
                assert(before[i].email@ == self.rows()[i].email@);
            }
        }
        assert forall|i: int, j: int| 0 <= i < j < self.rows().len() implies
            (#[trigger] self.rows()[i]).tax_id@ != (#[trigger] self.rows()[j]).tax_id@ by {
            if j == before.len() {
                assert(before[i].tax_id@ == self.rows()[i].tax_id@);
            }
        }
        Ok(())
    }

    /// Logs in by exact email and password: the matching customer's id and
    /// name, or `InvalidCredentials` whether the email is unknown or the
    /// password wrong.
    pub fn login(&self, email: &String, password: &String) -> (r: Result<Authenticated, ServiceError>)
        requires
            self.wf(),
        ensures
            login_post(*self, email@, password@, r),
    {
        let mut i: usize = 0;
        while i < self.rows.len()
            invariant
                i <= self.rows@.len(),
                forall|k: int| 0 <= k < i ==> !#[trigger] matches_at(self.rows@, k, email@, password@),
            decreases self.rows@.len() - i,
        {
            if self.rows[i].email == *email && self.rows[i].password == *password {
                let found = self.rows[i].authenticated();
                assert(matches_at(self.rows(), i as int, email@, password@));
                return Ok(found);
            }
            i = i + 1;
        }
        Err(ServiceError::InvalidCredentials)
    }

    /// Every customer, by ascending id, without passwords.
    pub fn list_all(&self) -> (r: Vec<CustomerSummary>)
        requires
            self.wf(),
        ensures
            list_post(*self, r@),
    {
        let mut out: Vec<CustomerSummary> = Vec::new();
        let mut i: usize = 0;
        while i < self.rows.len()
            invariant
                i <= self.rows@.len(),
                out@.len() == i,
                forall|k: int| 0 <= k < i ==> summarizes(#[trigger] out@[k], self.rows@[k]),
            decreases self.rows@.len() - i,
        {
            let s = self.rows[i].summary();
            out.push(s);
            i = i + 1;
        }
        assert forall|a: int, b: int| 0 <= a < b < out@.len() implies #[trigger] out@[a].id < #[trigger] out@[b].id by {
            assert(summarizes(out@[a], self.rows()[a]));
            assert(summarizes(out@[b], self.rows()[b]));
        }
        out
    }
}

} // verus!
