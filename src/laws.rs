//! Properties of the repository that relate several operations.
use vstd::prelude::*;
use crate::model::{Authenticated, NewCustomer, ServiceError};
use crate::memory::{
    email_taken, login_post, matches_at, new_record, register_post, tax_id_taken, MemoryStore, MAX_ID,
};

verus! {

/// Registering a customer whose email and tax id are unused succeeds, and a
/// login with the same email and password then succeeds with the new
/// customer's id and the registered name.
pub proof fn lemma_register_then_login(
    pre: MemoryStore,
    post: MemoryStore,
    c: NewCustomer,
    now: i64,
    r: Result<(), ServiceError>,
    login: Result<Authenticated, ServiceError>,
)
    requires
        pre.wf(),
        pre.next_id() <= MAX_ID,
        !email_taken(pre.rows(), c.email@),
        !tax_id_taken(pre.rows(), c.tax_id@),
        register_post(pre, post, c, now, r),
        login_post(post, c.email@, c.password@, login),
    ensures
        r is Ok,
        login is Ok,
        login->Ok_0.id == pre.next_id(),
        login->Ok_0.name@ == c.name@,
{
    let n = pre.rows().len() as int;
    assert(matches_at(post.rows(), n, c.email@, c.password@));
    let i = choose|i: int|
        #[trigger] matches_at(post.rows(), i, c.email@, c.password@)
        && login->Ok_0.id == post.rows()[i].id
        && login->Ok_0.name@ == post.rows()[i].name@;
    if i < n {
        assert(pre.rows()[i] == post.rows()[i]);
        assert(email_taken(pre.rows(), c.email@));
    }
    assert(post.rows()[n] == new_record(c, pre.next_id(), now));
}

/// Registering with an email that is already stored gives `DuplicateEmail`
/// and leaves the store as it was, whether or not the tax id is stored too.
pub proof fn lemma_duplicate_email(
    pre: MemoryStore,
    post: MemoryStore,
    c: NewCustomer,
    now: i64,
    r: Result<(), ServiceError>,
)
    requires
        pre.wf(),
        email_taken(pre.rows(), c.email@),
        register_post(pre, post, c, now, r),
    ensures
        r == Err::<(), ServiceError>(ServiceError::DuplicateEmail),
        post == pre,
{
}

/// Registering with an unused email and a stored tax id gives
/// `DuplicateTaxId` and leaves the store as it was.
pub proof fn lemma_duplicate_tax_id(
    pre: MemoryStore,
    post: MemoryStore,
    c: NewCustomer,
    now: i64,
    r: Result<(), ServiceError>,
)
    requires
        pre.wf(),
        !email_taken(pre.rows(), c.email@),
        tax_id_taken(pre.rows(), c.tax_id@),
        register_post(pre, post, c, now, r),
    ensures
        r == Err::<(), ServiceError>(ServiceError::DuplicateTaxId),
        post == pre,
{
}

/// A login with a stored email and a password other than that customer's
/// gives `InvalidCredentials`.
pub proof fn lemma_wrong_password(
    store: MemoryStore,
    k: int,
    password: Seq<char>,
    login: Result<Authenticated, ServiceError>,
)
    requires
        store.wf(),
        0 <= k < store.rows().len(),
        store.rows()[k].password@ != password,
        login_post(store, store.rows()[k].email@, password, login),
    ensures
        login == Err::<Authenticated, ServiceError>(ServiceError::InvalidCredentials),
{
    let email = store.rows()[k].email@;
    if exists|i: int| matches_at(store.rows(), i, email, password) {
        let i = choose|i: int| matches_at(store.rows(), i, email, password);
        if i < k {
            assert(store.rows()[i].email@ != store.rows()[k].email@);
        } else if k < i {
            assert(store.rows()[k].email@ != store.rows()[i].email@);
        }
    }
}

/// A login with an email that no customer has gives `InvalidCredentials`,
/// as a wrong password does.
pub proof fn lemma_unknown_email(
    store: MemoryStore,
    email: Seq<char>,
    password: Seq<char>,
    login: Result<Authenticated, ServiceError>,
)
    requires
        store.wf(),
        !email_taken(store.rows(), email),
        login_post(store, email, password, login),
    ensures
        login == Err::<Authenticated, ServiceError>(ServiceError::InvalidCredentials),
{
    if exists|i: int| matches_at(store.rows(), i, email, password) {
        let i = choose|i: int| matches_at(store.rows(), i, email, password);
        assert(store.rows()[i].email@ == email);
    }
}

} // verus!
