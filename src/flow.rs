//! The repository's decisions when it is backed by a live relational store.
//! Whoever holds the connection runs the queries; these functions say which
//! query comes next and what the replies amount to.
use vstd::prelude::*;
use crate::model::{Authenticated, CustomerSummary, NewCustomer, ServiceError, StoreFailure};
use crate::memory::{
    email_taken, register_decision, register_post, tax_id_taken, MemoryStore, MAX_ID,
};

verus! {

/// Where a registration stands.
#[derive(Clone, Copy, Debug, PartialEq, Eq, Structural)]
pub enum RegisterStep {
    /// Ask whether a customer has the payload's email.
    CheckEmail,
    /// Ask whether a customer has the payload's tax id.
    CheckTaxId,
    /// Insert the payload as a new customer.
    Insert,
    /// The customer was stored.
    Registered,
    /// The registration ended in this error.
    Rejected(ServiceError),
}

/// The store's reply to the step just run.
#[derive(Clone, Copy, Debug, PartialEq, Eq, Structural)]
pub enum StoreReply {
    /// An existence query answered.
    Exists(bool),
    /// The insert went through.
    Written,
    /// The query or insert failed.
    Failed,
}

/// The step is final.
pub open spec fn finished(step: RegisterStep) -> bool {
    step is Registered || step is Rejected
}

/// The final step that stands for an outcome.
pub open spec fn step_of(outcome: Result<(), ServiceError>) -> RegisterStep {
    match outcome {
        Ok(_) => RegisterStep::Registered,
        Err(e) => RegisterStep::Rejected(e),
    }
}

/// Whether the registration is over.
pub fn is_finished(step: RegisterStep) -> (r: bool)
    ensures
        r == finished(step),
{
    match step {
        RegisterStep::Registered | RegisterStep::Rejected(_) => true,
        _ => false,
    }
}

/// The outcome of a final step.
pub fn outcome(step: RegisterStep) -> (r: Result<(), ServiceError>)
    requires
        finished(step),
    ensures
        step_of(r) == step,
{
    match step {
        RegisterStep::Rejected(e) => Err(e),
        _ => Ok(()),
    }
}

/// The first step: check the email when a connection is present.
pub fn register_start(available: bool) -> (r: RegisterStep)
    ensures
        available ==> r == RegisterStep::CheckEmail,
        !available ==> r == RegisterStep::Rejected(ServiceError::Unavailable),
{
    if available {
        RegisterStep::CheckEmail
    } else {
        RegisterStep::Rejected(ServiceError::Unavailable)
    }
}

/// The step after `step` once the store gave `reply`. A taken email ends in
/// `DuplicateEmail` before the tax id is asked about; a taken tax id ends in
/// `DuplicateTaxId` before anything is written; a failure, or a reply that does
/// not answer the step, ends in `StoreError`. A final step stays as it is.
pub open spec fn next_step(step: RegisterStep, reply: StoreReply) -> RegisterStep {
    match step {
        RegisterStep::CheckEmail => match reply {
            StoreReply::Exists(true) => RegisterStep::Rejected(ServiceError::DuplicateEmail),
            StoreReply::Exists(false) => RegisterStep::CheckTaxId,
            _ => RegisterStep::Rejected(ServiceError::StoreError),
        },
        RegisterStep::CheckTaxId => match reply {
            StoreReply::Exists(true) => RegisterStep::Rejected(ServiceError::DuplicateTaxId),
            StoreReply::Exists(false) => RegisterStep::Insert,
            _ => RegisterStep::Rejected(ServiceError::StoreError),
        },
        RegisterStep::Insert => match reply {
            StoreReply::Written => RegisterStep::Registered,
            _ => RegisterStep::Rejected(ServiceError::StoreError),
        },
        _ => step,
    }
}

/// The step reached from `step` after the replies, in order.
pub open spec fn run_steps(step: RegisterStep, replies: Seq<StoreReply>) -> RegisterStep
    decreases replies.len(),
{
    if replies.len() == 0 {
        step
    } else {
        run_steps(next_step(step, replies[0]), replies.drop_first())
    }
}

/// One transition of a registration.
pub fn register_next(step: RegisterStep, reply: StoreReply) -> (r: RegisterStep)
    ensures
        r == next_step(step, reply),
{
    match step {
        RegisterStep::CheckEmail => match reply {
            StoreReply::Exists(true) => RegisterStep::Rejected(ServiceError::DuplicateEmail),
            StoreReply::Exists(false) => RegisterStep::CheckTaxId,
            _ => RegisterStep::Rejected(ServiceError::StoreError),
        },
        RegisterStep::CheckTaxId => match reply {
            StoreReply::Exists(true) => RegisterStep::Rejected(ServiceError::DuplicateTaxId),
            StoreReply::Exists(false) => RegisterStep::Insert,
            _ => RegisterStep::Rejected(ServiceError::StoreError),
        },
        RegisterStep::Insert => match reply {
            StoreReply::Written => RegisterStep::Registered,
            _ => RegisterStep::Rejected(ServiceError::StoreError),
        },
        RegisterStep::Registered => RegisterStep::Registered,
        RegisterStep::Rejected(e) => RegisterStep::Rejected(e),
    }
}

/// A final step stays final whatever replies follow.
pub proof fn lemma_finished_stays(step: RegisterStep, replies: Seq<StoreReply>)
    requires
        finished(step),
    ensures
        run_steps(step, replies) == step,
    decreases replies.len(),
{
    if replies.len() > 0 {
        lemma_finished_stays(next_step(step, replies[0]), replies.drop_first());
    }
}

/// A registration whose store answers the two existence queries truthfully
/// and takes the insert ends as the uniqueness rules decide, whatever the
/// replies after the end.
pub proof fn lemma_register_flow_decides(email_is_taken: bool, tax_id_is_taken: bool, rest: Seq<StoreReply>)
    ensures
        run_steps(
            RegisterStep::CheckEmail,
            seq![StoreReply::Exists(email_is_taken), StoreReply::Exists(tax_id_is_taken), StoreReply::Written] + rest,
        ) == step_of(register_decision(email_is_taken, tax_id_is_taken)),
{
    let replies = seq![StoreReply::Exists(email_is_taken), StoreReply::Exists(tax_id_is_taken), StoreReply::Written] + rest;
    let s1 = next_step(RegisterStep::CheckEmail, replies[0]);
    assert(replies.drop_first() =~= seq![StoreReply::Exists(tax_id_is_taken), StoreReply::Written] + rest);
    let r1 = replies.drop_first();
    let s2 = next_step(s1, r1[0]);
    assert(r1.drop_first() =~= seq![StoreReply::Written] + rest);
    let r2 = r1.drop_first();
    let s3 = next_step(s2, r2[0]);
    assert(r2.drop_first() =~= rest);
    assert(run_steps(RegisterStep::CheckEmail, replies) == run_steps(s1, r1));
    if finished(s1) {
        lemma_finished_stays(s1, r1);
    } else {
        assert(run_steps(s1, r1) == run_steps(s2, r2));
        if finished(s2) {
            lemma_finished_stays(s2, r2);
        } else {
            assert(run_steps(s2, r2) == run_steps(s3, rest));
            lemma_finished_stays(s3, rest);
        }
    }
}

/// A registration driven against a live store ends in the outcome that the
/// in-memory store gives on the same contents, when the store answers
/// truthfully and ids are left.
pub proof fn lemma_register_flow_matches_store(
    pre: MemoryStore,
    post: MemoryStore,
    c: NewCustomer,
    now: i64,
    r: Result<(), ServiceError>,
)
    requires
        pre.wf(),
        pre.next_id() <= MAX_ID,
        register_post(pre, post, c, now, r),
    ensures
        run_steps(
            RegisterStep::CheckEmail,
            seq![
                StoreReply::Exists(email_taken(pre.rows(), c.email@)),
                StoreReply::Exists(tax_id_taken(pre.rows(), c.tax_id@)),
                StoreReply::Written,
            ],
        ) == step_of(r),
{
    let e = email_taken(pre.rows(), c.email@);
    let t = tax_id_taken(pre.rows(), c.tax_id@);
    lemma_register_flow_decides(e, t, Seq::empty());
    assert(seq![StoreReply::Exists(e), StoreReply::Exists(t), StoreReply::Written] + Seq::<StoreReply>::empty()
        =~= seq![StoreReply::Exists(e), StoreReply::Exists(t), StoreReply::Written]);
}

/// The login outcome from the store's answer to the query for a customer
/// with the email and password: the match, `InvalidCredentials` when there is
/// none, `StoreError` when the query failed.
pub fn login_outcome(reply: Result<Option<Authenticated>, StoreFailure>) -> (r: Result<Authenticated, ServiceError>)
    ensures
        reply is Err ==> r == Err::<Authenticated, ServiceError>(ServiceError::StoreError),
        reply == Ok::<Option<Authenticated>, StoreFailure>(None) ==> r == Err::<Authenticated, ServiceError>(ServiceError::InvalidCredentials),
        reply is Ok && reply->Ok_0 is Some ==> r == Ok::<Authenticated, ServiceError>(reply->Ok_0->Some_0),
{
    match reply {
        Ok(Some(a)) => Ok(a),
        Ok(None) => Err(ServiceError::InvalidCredentials),
        Err(_) => Err(ServiceError::StoreError),
    }
}

/// The listing outcome from the store's answer to the listing query: its
/// rows, or `StoreError` when the query failed.
pub fn list_outcome(reply: Result<Vec<CustomerSummary>, StoreFailure>) -> (r: Result<Vec<CustomerSummary>, ServiceError>)
    ensures
        reply is Err ==> r == Err::<Vec<CustomerSummary>, ServiceError>(ServiceError::StoreError),
        reply is Ok ==> r == Ok::<Vec<CustomerSummary>, ServiceError>(reply->Ok_0),
{
    match reply {
        Ok(rows) => Ok(rows),
        Err(_) => Err(ServiceError::StoreError),
    }
}

} // verus!
