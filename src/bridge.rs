use vstd::prelude::*;
use crate::error::{status_of, AppError, CredentialError, STATUS_UNAUTHORIZED};
use crate::gate::{gate_decision, jwt_validation};
use crate::pool::{acquire_step, give_up_step, release_step, SlotPool};
use crate::token::{Claims, ClaimsView};

verus! {

/// How a unit of database work failed on the worker, with the report that is
/// logged.
#[derive(Clone, Debug)]
pub enum WorkFailure {
    /// No live connection could be had for the work.
    Connection(String),
    /// The query itself failed.
    Query(String),
}

/// What the worker hands back for one unit of database work: the task either
/// failed to run (with the scheduler's report), or ran the work, which either
/// produced a value or failed.
pub type Joined<T> = Result<Result<T, WorkFailure>, String>;

/// Where a request stands after the auth guard and its first acquire.
#[derive(Clone, Debug)]
pub enum Entry {
    /// The auth guard passed and a connection is held.
    Granted(Claims),
    /// The auth guard passed and the request waits in line under its ticket.
    Waiting(Claims),
}

/// The response-level outcome of a unit of database work.
pub open spec fn settled<T>(joined: Joined<T>) -> Result<T, AppError> {
    match joined {
        Ok(Ok(v)) => Ok(v),
        Ok(Err(WorkFailure::Connection(m))) => Err(AppError::PoolError(m)),
        Ok(Err(WorkFailure::Query(m))) => Err(AppError::DatabaseError(m)),
        Err(m) => Err(AppError::AsyncTaskError(m)),
    }
}

/// Adapts the worker's outcome: scheduling failures, connection failures and
/// query failures stay apart, so the response
/// tells infrastructure trouble from a failed query.
pub fn settle<T>(joined: Joined<T>) -> (r: Result<T, AppError>)
    ensures
        r == settled(joined),
{
    match joined {
        Ok(Ok(v)) => Ok(v),
        Ok(Err(WorkFailure::Connection(m))) => Err(AppError::PoolError(m)),
        Ok(Err(WorkFailure::Query(m))) => Err(AppError::DatabaseError(m)),
        Err(m) => Err(AppError::AsyncTaskError(m)),
    }
}

/// Runs the auth guard on a request to a guarded route and, only once it passes, asks
/// the pool for a connection under `ticket`. A refused request leaves the pool
/// exactly as it was.
pub fn enter_gated(pool: &mut SlotPool, header: Option<&str>, secret: &str, now: u64, ticket: u64) -> (r: Result<Entry, AppError>)
    requires
        old(pool).wf(),
        old(pool)@.waiting.len() < usize::MAX,
    ensures
        final(pool).wf(),
        match gate_decision(match header { Some(h) => Some(h@), None => None }, secret@, now) {
            Err(e) => r == Err::<Entry, AppError>(AppError::CredentialError(e)) && final(pool)@ == old(pool)@,
            Ok(c) => {
                &&& r is Ok
                &&& final(pool)@ == acquire_step(old(pool)@, ticket).0
                &&& match r->Ok_0 {
                    Entry::Granted(k) => k@ == c && acquire_step(old(pool)@, ticket).1,
                    Entry::Waiting(k) => k@ == c && !acquire_step(old(pool)@, ticket).1,
                }
            },
        },
{
    match jwt_validation(header, secret, now) {
        Err(e) => Err(AppError::CredentialError(e)),
        Ok(c) => {
            if pool.acquire(ticket) {
                Ok(Entry::Granted(c))
            } else {
                Ok(Entry::Waiting(c))
            }
        },
    }
}

/// Asks the pool for a connection under `ticket` for a route without a auth guard;
/// `true` when one is held at once.
pub fn enter_open(pool: &mut SlotPool, ticket: u64) -> (granted: bool)
    requires
        old(pool).wf(),
        old(pool)@.waiting.len() < usize::MAX,
    ensures
        final(pool).wf(),
        (final(pool)@, granted) == acquire_step(old(pool)@, ticket),
{
    pool.acquire(ticket)
}

/// The wait of `ticket` timed out. Still in line: it leaves the line and the
/// request fails as pool exhaustion, never retried. Already handed a
/// connection by a release: it goes on holding it.
pub fn wait_timed_out(pool: &mut SlotPool, ticket: u64) -> (r: Result<(), AppError>)
    requires
        old(pool).wf(),
    ensures
        final(pool).wf(),
        final(pool)@ == give_up_step(old(pool)@, ticket).0,
        give_up_step(old(pool)@, ticket).1 ==> r is Err && r->Err_0 is PoolError,
        !give_up_step(old(pool)@, ticket).1 ==> r is Ok,
{
    if pool.give_up(ticket) {
        Err(AppError::PoolError("timed out waiting for a connection".to_owned()))
    } else {
        Ok(())
    }
}

/// Ends a unit of database work that held a connection: the connection is
/// released exactly once whatever the outcome, and the outcome is settled.
/// Also returns the ticket of the waiter that the connection went to.
pub fn complete<T>(pool: &mut SlotPool, joined: Joined<T>) -> (r: (Result<T, AppError>, Option<u64>))
    requires
        old(pool).wf(),
        old(pool)@.in_use > 0,
    ensures
        final(pool).wf(),
        (final(pool)@, r.1) == release_step(old(pool)@),
        r.0 == settled(joined),
{
    let handed_to = pool.release();
    (settle(joined), handed_to)
}

/// A request to a guarded route without an `Authorization` header is refused
/// by the auth guard as missing its credential and answered 401; by the
/// contract of `enter_gated` the pool is then left as it was, so no
/// connection is ever asked for.
pub proof fn lemma_missing_header_before_pool(secret: Seq<char>, now: u64)
    ensures
        gate_decision(None, secret, now) is Err,
        status_of(AppError::CredentialError(gate_decision(None, secret, now)->Err_0)) == STATUS_UNAUTHORIZED,
        gate_decision(None, secret, now)->Err_0 == CredentialError::Missing,
{
}

} // verus!
