//! Request-level operations: the decisions a handler makes around the
//! store.
//!
//! Validation and conflict detection happen before any mutation: a request
//! that fails leaves the store exactly as it was.

use vstd::prelude::*;

use crate::errors::ServiceError;
use crate::ident::{extract_catalog_id, is_extraction, no_match};
use crate::store::{contains_id, id_index, watch_applied, Proposal, ProposalStore};

verus! {

/// Validate raw user input and insert the extracted identifier as a new
/// proposal at time `now`.
///
/// Fails with `ServiceError::Validation`, exactly when the input holds no
/// catalog identifier, and with `ServiceError::Conflict` when the
/// extracted identifier is already proposed; either failure leaves the
/// store unchanged. On success the store gains one fresh open record with
/// no vetoes, and a copy of it is returned.
pub fn add_proposal(store: &mut ProposalStore, raw_id: &str, proposed_by: String, now: i64) -> (r:
    Result<Proposal, ServiceError>)
    requires
        old(store).wf(),
    ensures
        final (store).wf(),
        match r {
            Ok(p) => {
                &&& exists|i: int, e: int|
                    is_extraction(raw_id@, i, e) && p@.catalog_id == raw_id@.subrange(i, e)
                &&& !contains_id(old(store)@, p@.catalog_id)
                &&& p@.proposed_at == now as int
                &&& p@.proposed_by == proposed_by@
                &&& p@.watched_at is None
                &&& p@.veto_count == 0
                &&& final (store)@ =~= old(store)@.push(p@)
            },
            Err(err) => {
                &&& final (store)@ == old(store)@
                &&& (err == ServiceError::Validation || err == ServiceError::Conflict)
                &&& (err == ServiceError::Validation <==> no_match(raw_id@))
                &&& err == ServiceError::Conflict ==> exists|i: int, e: int|
                    is_extraction(raw_id@, i, e) && contains_id(
                        old(store)@,
                        raw_id@.subrange(i, e),
                    )
            },
        },
{
    let catalog_id = match extract_catalog_id(raw_id) {
        Ok(id) => id,
        Err(_) => {
            return Err(ServiceError::Validation);
        },
    };
    store.insert(catalog_id, proposed_by, now)
}

/// Relies on time::OffsetDateTime: `now_utc().unix_timestamp()` is the
/// current UTC time in whole seconds since the Unix epoch. Nothing is
/// promised of the value: it depends on the clock.
#[verifier::external_body]
fn now_epoch_seconds() -> i64 {
    time::OffsetDateTime::now_utc().unix_timestamp()
}

/// `add_proposal` with the current server time as `proposed_at`: the
/// proposal timestamp is set server-side, never supplied by the caller.
/// The contract is that of `add_proposal` at some timestamp.
pub fn add_proposal_now(store: &mut ProposalStore, raw_id: &str, proposed_by: String) -> (r: Result<
    Proposal,
    ServiceError,
>)
    requires
        old(store).wf(),
    ensures
        final (store).wf(),
        match r {
            Ok(p) => {
                &&& exists|i: int, e: int|
                    is_extraction(raw_id@, i, e) && p@.catalog_id == raw_id@.subrange(i, e)
                &&& !contains_id(old(store)@, p@.catalog_id)
                &&& p@.proposed_by == proposed_by@
                &&& p@.watched_at is None
                &&& p@.veto_count == 0
                &&& final (store)@ =~= old(store)@.push(p@)
            },
            Err(err) => {
                &&& final (store)@ == old(store)@
                &&& (err == ServiceError::Validation || err == ServiceError::Conflict)
                &&& (err == ServiceError::Validation <==> no_match(raw_id@))
                &&& err == ServiceError::Conflict ==> exists|i: int, e: int|
                    is_extraction(raw_id@, i, e) && contains_id(
                        old(store)@,
                        raw_id@.subrange(i, e),
                    )
            },
        },
{
    let now = now_epoch_seconds();
    add_proposal(store, raw_id, proposed_by, now)
}

/// Mark the proposal bearing `catalog_id` watched at the current server
/// time. The contract is that of `ProposalStore::mark_watched` at some
/// timestamp: idempotent in outcome, `ServiceError::NotFound` when no
/// record bears the identifier.
pub fn mark_watched_now(store: &mut ProposalStore, catalog_id: &str) -> (r: Result<
    (),
    ServiceError,
>)
    requires
        old(store).wf(),
    ensures
        final (store).wf(),
        match r {
            Ok(()) => contains_id(old(store)@, catalog_id@) && exists|t: int|
                final (store)@ =~= watch_applied(
                    old(store)@,
                    id_index(old(store)@, catalog_id@),
                    t,
                ),
            Err(err) => err == ServiceError::NotFound && !contains_id(old(store)@, catalog_id@)
                && final (store)@ == old(store)@,
        },
{
    let now = now_epoch_seconds();
    store.mark_watched(catalog_id, now)
}

} // verus!
