//! The rules that the shipment service applies between its calls to storage.
use vstd::prelude::*;

use crate::clock::clock_reading;
use crate::error::DomainError;
use crate::package::PackageDetails;
use crate::proof_of_delivery::{cleaned_image, proof_errors, ProofOfDelivery};
use crate::recipient::Recipient;
use crate::shipment::{submitted_by_any, Shipment, ShipmentView, UpdateShipment};
use crate::shipment_status::ShipmentStatus;
use crate::text::{trimmed, views};
use crate::user::User;
use crate::user_status::UserRole;

verus! {

/// The texts of a list of errors.
pub open spec fn error_texts(errs: Seq<DomainError>) -> Seq<Seq<char>> {
    errs.map_values(|e: DomainError| e.text())
}

/// The texts of a list of errors, one each.
pub fn messages_of(errs: &Vec<DomainError>) -> (r: Vec<String>)
    ensures
        views(r@) == error_texts(errs@),
{
    let mut r: Vec<String> = Vec::new();
    let n = errs.len();
    let mut i: usize = 0;
    while i < n
        invariant
            n == errs@.len(),
            0 <= i <= n,
            views(r@) =~= error_texts(errs@).take(i as int),
        decreases n - i,
    {
        let m = errs[i].message();
        let ghost before = r@;
        r.push(m);
        assert(views(r@) =~= views(before).push(m@));
        assert(error_texts(errs@).take(i + 1) =~= error_texts(errs@).take(i as int).push(
            errs@[i as int].text(),
        ));
        i = i + 1;
    }
    assert(error_texts(errs@).take(n as int) =~= error_texts(errs@));
    r
}

/// The shipment found under a tracking number, or the error that names it.
pub fn shipment_by_tracking(found: Option<Shipment>, tracking: &str) -> (r: Result<
    Shipment,
    DomainError,
>)
    ensures
        found is Some ==> r is Ok && r->Ok_0@ == found->0@,
        found is None ==> r is Err && (r->Err_0 matches DomainError::ShipmentNotFound {
            tracking_number,
        } && tracking_number@ == tracking@),
{
    match found {
        Some(s) => Ok(s),
        None => Err(DomainError::ShipmentNotFound { tracking_number: String::from_str(tracking) }),
    }
}

/// The shipment found under an identifier, or the error that names it.
pub fn shipment_by_id(found: Option<Shipment>, id: u128) -> (r: Result<Shipment, DomainError>)
    ensures
        found is Some ==> r is Ok && r->Ok_0@ == found->0@,
        found is None ==> r is Err && r->Err_0 == (DomainError::ShipmentNotFoundById { id }),
{
    match found {
        Some(s) => Ok(s),
        None => Err(DomainError::ShipmentNotFoundById { id }),
    }
}

/// A deletion that removed no row means the shipment did not exist.
pub fn shipment_deletion(affected: u64, id: u128) -> (r: Result<(), DomainError>)
    ensures
        affected == 0 ==> r is Err && r->Err_0 == (DomainError::ShipmentNotFoundById { id }),
        affected != 0 ==> r is Ok,
{
    if affected == 0 {
        Err(DomainError::ShipmentNotFoundById { id })
    } else {
        Ok(())
    }
}

/// A status change asked by tracking number: the shipment must exist, then the
/// move must be allowed.
pub fn status_change(found: Option<Shipment>, tracking: &str, status: ShipmentStatus) -> (r:
    Result<Shipment, DomainError>)
    ensures
        found is None ==> r is Err && (r->Err_0 matches DomainError::ShipmentNotFound {
            tracking_number,
        } && tracking_number@ == tracking@),
        found is Some && ShipmentStatus::can_move(found->0@.status, status) ==> r is Ok
            && r->Ok_0@ == (ShipmentView {
            status,
            updated_at: r->Ok_0@.updated_at,
            ..found->0@
        }),
        found is Some && !ShipmentStatus::can_move(found->0@.status, status) ==> r is Err
            && r->Err_0 == (DomainError::InvalidShipmentStatusTransition {
            from: found->0@.status,
            to: status,
        }),
        r is Ok ==> clock_reading(r->Ok_0@.updated_at as int),
{
    match shipment_by_tracking(found, tracking) {
        Err(e) => Err(e),
        Ok(s) => s.update_status(status),
    }
}

/// The shipment with the parts that the request gives and the others kept,
/// stamped with the current time.
pub fn merged_update(existing: &Shipment, input: UpdateShipment) -> (r: Shipment)
    ensures
        r@.id == existing@.id,
        r@.tracking_number == existing@.tracking_number,
        r@.status == existing@.status,
        r@.created_at == existing@.created_at,
        r@.proof_of_delivery == existing@.proof_of_delivery,
        r@.service_provider_id == existing@.service_provider_id,
        clock_reading(r@.updated_at as int),
        r@.sender_name == (match input.sender_name {
            Some(n) => n@,
            None => existing@.sender_name,
        }),
        r@.recipient == (match input.recipient {
            Some(x) => x@,
            None => existing@.recipient,
        }),
        r@.package_details == (match input.package_details {
            Some(x) => x@,
            None => existing@.package_details,
        }),
{
    let sender: String = match input.sender_name {
        Some(n) => n,
        None => String::from_str(existing.sender_name()),
    };
    let recipient: Recipient = match input.recipient {
        Some(x) => x,
        None => existing.recipient().clone(),
    };
    let package: PackageDetails = match input.package_details {
        Some(x) => x,
        None => existing.package_details().clone(),
    };
    existing.updated_shipment(sender, recipient, package)
}

/// A proof checked again as a new proof: trimmed and stamped with the current
/// time; its problems become a validation error that lists their texts.
pub fn revalidated_proof(proof: &ProofOfDelivery) -> (r: Result<ProofOfDelivery, DomainError>)
    ensures
        ({
            let errs = proof_errors(proof@.image, proof@.note, proof@.submitted_by);
            &&& errs.len() == 0 ==> r is Ok && r->Ok_0@.image == cleaned_image(proof@.image)
                && r->Ok_0@.note == trimmed(proof@.note) && r->Ok_0@.submitted_by == trimmed(
                proof@.submitted_by,
            ) && clock_reading(r->Ok_0@.submitted_at as int)
            &&& errs.len() > 0 ==> r is Err && (r->Err_0 matches DomainError::ValidationError(v)
                && views(v@) == error_texts(errs))
        }),
{
    match ProofOfDelivery::create(
        proof.image(),
        String::from_str(proof.note()),
        String::from_str(proof.submitted_by()),
    ) {
        Ok(p) => Ok(p),
        Err(errs) => Err(DomainError::ValidationError(messages_of(&errs))),
    }
}

/// A proof handed in under a tracking number: the shipment must exist, then
/// accept the proof (see `Shipment::attach_proof_of_delivery`).
pub fn proof_attachment(found: Option<Shipment>, tracking: &str, proof: ProofOfDelivery) -> (r:
    Result<Shipment, DomainError>)
    ensures
        found is None ==> r is Err && (r->Err_0 matches DomainError::ShipmentNotFound {
            tracking_number,
        } && tracking_number@ == tracking@),
        found is Some && found->0@.status != ShipmentStatus::Delivered ==> r is Err && r->Err_0
            == DomainError::ShipmentNotDelivered,
        found is Some && found->0@.status == ShipmentStatus::Delivered && submitted_by_any(
            found->0@.proof_of_delivery,
            proof@.submitted_by,
        ) ==> r is Err && r->Err_0 == DomainError::DuplicateProofOfDelivery,
        found is Some && found->0@.status == ShipmentStatus::Delivered && !submitted_by_any(
            found->0@.proof_of_delivery,
            proof@.submitted_by,
        ) ==> r is Ok && r->Ok_0@ == (ShipmentView {
            proof_of_delivery: found->0@.proof_of_delivery.push(proof@),
            updated_at: r->Ok_0@.updated_at,
            ..found->0@
        }),
        r is Ok ==> clock_reading(r->Ok_0@.updated_at as int),
{
    match shipment_by_tracking(found, tracking) {
        Err(e) => Err(e),
        Ok(s) => s.attach_proof_of_delivery(proof),
    }
}

/// A provider for a shipment must be an existing user whose role is
/// `ServiceProvider`.
pub fn check_service_provider(found: &Option<User>, provider_id: u128) -> (r: Result<
    (),
    DomainError,
>)
    ensures
        found is None ==> r is Err && r->Err_0 == (DomainError::UserNotFoundWithId {
            id: provider_id,
        }),
        found is Some && found->0@.role != UserRole::ServiceProvider ==> r is Err && r->Err_0
            == (DomainError::UserIsNotServiceProvider { provider_id }),
        found is Some && found->0@.role == UserRole::ServiceProvider ==> r is Ok,
{
    match found {
        None => Err(DomainError::UserNotFoundWithId { id: provider_id }),
        Some(u) => if u.role() != UserRole::ServiceProvider {
            Err(DomainError::UserIsNotServiceProvider { provider_id })
        } else {
            Ok(())
        },
    }
}

} // verus!
