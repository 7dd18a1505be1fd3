//! The availability guard: an optional store connection that every request
//! goes through, so that a missing connection is a uniform `Unavailable`
//! answer rather than a crash.
use vstd::prelude::*;
use crate::model::{Authenticated, CustomerSummary, NewCustomer, ServiceError};
use crate::memory::MemoryStore;

verus! {

/// The connection slot: a live handle, or none.
pub enum Connection<S> {
    Connected(S),
    Disconnected,
}

/// Exclusive owner of the connection slot. Operations take it by reference,
/// `&mut` for those that write, so no two of them overlap.
pub struct Guard<S> {
    slot: Connection<S>,
}

impl<S> Guard<S> {
    pub closed spec fn slot(&self) -> Connection<S> {
        self.slot
    }

    /// A guard over a live connection.
    pub fn connected(handle: S) -> (r: Guard<S>)
        ensures
            r.slot() == Connection::Connected(handle),
    {
        Guard { slot: Connection::Connected(handle) }
    }

    /// A guard with no connection, for a store that could not be reached.
    pub fn disconnected() -> (r: Guard<S>)
        ensures
            r.slot() == Connection::<S>::Disconnected,
    {
        Guard { slot: Connection::Disconnected }
    }

    /// A guard over the outcome of connecting at start-up.
    pub fn from_option(handle: Option<S>) -> (r: Guard<S>)
        ensures
            handle is None ==> r.slot() == Connection::<S>::Disconnected,
            handle is Some ==> r.slot() == Connection::Connected(handle->Some_0),
    {
        match handle {
            Some(h) => Guard { slot: Connection::Connected(h) },
            None => Guard { slot: Connection::Disconnected },
        }
    }

    /// Whether a live connection is present.
    pub fn is_available(&self) -> (r: bool)
        ensures
            r == (self.slot() is Connected),
    {
        match &self.slot {
            Connection::Connected(_) => true,
            Connection::Disconnected => false,
        }
    }

    /// The live connection, or `Unavailable` when there is none.
    pub fn acquire(&self) -> (r: Result<&S, ServiceError>)
        ensures
            self.slot() is Disconnected ==> r == Err::<&S, ServiceError>(ServiceError::Unavailable),
            self.slot() is Connected ==> r == Ok::<&S, ServiceError>(&self.slot()->Connected_0),
    {
        match &self.slot {
            Connection::Connected(h) => Ok(h),
            Connection::Disconnected => Err(ServiceError::Unavailable),
        }
    }
}

impl Guard<MemoryStore> {
    /// The guard's store is well formed, or absent.
    pub open spec fn wf(&self) -> bool {
        self.slot() is Connected ==> self.slot()->Connected_0.wf()
    }

    /// Registers through the guard; `Unavailable`, with nothing changed, when
    /// no store is connected.
    pub fn register(&mut self, c: NewCustomer, now: i64) -> (r: Result<(), ServiceError>)
        requires
            old(self).wf(),
        ensures
            final(self).wf(),
            old(self).slot() is Disconnected ==> r == Err::<(), ServiceError>(ServiceError::Unavailable)
                && *final(self) == *old(self),
            old(self).slot() is Connected ==> final(self).slot() is Connected
                && crate::memory::register_post(
                    old(self).slot()->Connected_0, final(self).slot()->Connected_0, c, now, r),
    {
        match &mut self.slot {
            Connection::Connected(store) => store.register(c, now),
            Connection::Disconnected => Err(ServiceError::Unavailable),
        }
    }

    /// Logs in through the guard; `Unavailable` when no store is connected.
    pub fn login(&self, email: &String, password: &String) -> (r: Result<Authenticated, ServiceError>)
        requires
            self.wf(),
        ensures
            self.slot() is Disconnected ==> r == Err::<Authenticated, ServiceError>(ServiceError::Unavailable),
            self.slot() is Connected ==> crate::memory::login_post(
                self.slot()->Connected_0, email@, password@, r),
    {
        match &self.slot {
            Connection::Connected(store) => store.login(email, password),
            Connection::Disconnected => Err(ServiceError::Unavailable),
        }
    }

    /// Lists through the guard; `Unavailable` when no store is connected.
    pub fn list_all(&self) -> (r: Result<Vec<CustomerSummary>, ServiceError>)
        requires
            self.wf(),
        ensures
            self.slot() is Disconnected ==> r == Err::<Vec<CustomerSummary>, ServiceError>(ServiceError::Unavailable),
            self.slot() is Connected ==> r is Ok
                && crate::memory::list_post(self.slot()->Connected_0, r->Ok_0@),
    {
        match &self.slot {
            Connection::Connected(store) => Ok(store.list_all()),
            Connection::Disconnected => Err(ServiceError::Unavailable),
        }
    }
}

} // verus!
