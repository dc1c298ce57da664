//! The rules that the complaint service applies between its calls to storage.
use vstd::prelude::*;

use crate::clock::clock_reading;
use crate::error::DomainError;
use crate::support::{Complaint, ComplaintView};
use crate::support_status::SupportStatus;

verus! {

/// The complaint found under an identifier, or the error that names it.
pub fn complaint_by_id(found: Option<Complaint>, id: u128) -> (r: Result<Complaint, DomainError>)
    ensures
        found is Some ==> r is Ok && r->Ok_0@ == found->0@,
        found is None ==> r is Err && r->Err_0 == (DomainError::ComplaintNotFound { id }),
{
    match found {
        Some(c) => Ok(c),
        None => Err(DomainError::ComplaintNotFound { id }),
    }
}

/// A deletion that removed no row means the complaint did not exist.
pub fn complaint_deletion(affected: u64, id: u128) -> (r: Result<(), DomainError>)
    ensures
        affected == 0 ==> r is Err && r->Err_0 == (DomainError::ComplaintNotFound { id }),
        affected != 0 ==> r is Ok,
{
    if affected == 0 {
        Err(DomainError::ComplaintNotFound { id })
    } else {
        Ok(())
    }
}

/// A status change of a complaint: it must exist, then the move must be allowed.
pub fn complaint_status_change(found: Option<Complaint>, id: u128, status: &SupportStatus) -> (r:
    Result<Complaint, DomainError>)
    ensures
        found is None ==> r is Err && r->Err_0 == (DomainError::ComplaintNotFound { id }),
        found is Some && SupportStatus::can_move(found->0@.status, *status) ==> r is Ok
            && r->Ok_0@ == (ComplaintView {
            status: *status,
            resolved_at: r->Ok_0@.resolved_at,
            ..found->0@
        }) && r->Ok_0@.resolved_at is Some && clock_reading(r->Ok_0@.resolved_at->0 as int),
        found is Some && !SupportStatus::can_move(found->0@.status, *status) ==> r is Err
            && r->Err_0 == (DomainError::InvalidSupportStatusTransition {
            from: found->0@.status,
            to: *status,
        }),
{
    match complaint_by_id(found, id) {
        Err(e) => Err(e),
        Ok(c) => c.update_status(status),
    }
}

} // verus!
