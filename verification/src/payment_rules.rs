//! The rules that the payment service applies between its calls to storage
//! and to the gateway.
use vstd::prelude::*;

use crate::clock::clock_reading;
use crate::error::DomainError;
use crate::gateway::{PaymentGatewayResponse, PaymentWebhookEvent, WebhookEventView};
use crate::money::Money;
use crate::payment::{is_reference_number, payment_errors, Payment, PaymentCommand, PaymentView};
use crate::payment_status::PaymentStatus;
use crate::proof_of_delivery::clone_opt;
use crate::text::{str_eq, views};

verus! {

/// The status that a gateway report asks for: `Successful` where it says
/// `success`, `Failed` for anything else.
pub open spec fn reported_status(status: Seq<char>) -> PaymentStatus {
    if status == "success"@ {
        PaymentStatus::Successful
    } else {
        PaymentStatus::Failed
    }
}

/// The report claims a success but names no transaction.
pub open spec fn lacks_transaction(ev: WebhookEventView) -> bool {
    reported_status(ev.status) == PaymentStatus::Successful && ev.gateway_transaction_id is None
}

/// The payment already has the status and the transaction that the report gives.
pub open spec fn already_applied(p: PaymentView, ev: WebhookEventView) -> bool {
    p.status == reported_status(ev.status) && p.gateway_transaction_id == ev.gateway_transaction_id
}

/// The payment as the report leaves it.
pub open spec fn applied(p: PaymentView, ev: WebhookEventView) -> PaymentView {
    PaymentView {
        status: reported_status(ev.status),
        gateway_transaction_id: ev.gateway_transaction_id,
        ..p
    }
}

/// What a gateway report does to a payment.
#[derive(Debug)]
pub enum WebhookOutcome {
    /// The report changes nothing: the payment is returned as it was and is not stored again.
    Unchanged(Payment),
    /// The payment changed and must be stored.
    Updated(Payment),
}

/// The status that a gateway report asks for.
pub fn status_from_report(status: &str) -> (r: PaymentStatus)
    ensures
        r == reported_status(status@),
{
    if str_eq(status, "success") {
        PaymentStatus::Successful
    } else {
        PaymentStatus::Failed
    }
}

/// Applies a gateway report to the payment it names. In order: a success
/// without a transaction is refused; a report that the payment already
/// reflects changes nothing; a move the payment's life cycle forbids is
/// refused; else the payment takes the reported status and transaction.
pub fn apply_webhook(payment: Payment, event: &PaymentWebhookEvent) -> (r: Result<
    WebhookOutcome,
    DomainError,
>)
    ensures
        lacks_transaction(event@) ==> r is Err && (r->Err_0 matches DomainError::PaymentGatewayError {
            signature,
        } && signature@ == "missing transaction id"@),
        !lacks_transaction(event@) && already_applied(payment@, event@) ==> (r matches Ok(
            WebhookOutcome::Unchanged(p),
        ) && p@ == payment@),
        !lacks_transaction(event@) && !already_applied(payment@, event@) && !PaymentStatus::can_move(
            payment@.status,
            reported_status(event@.status),
        ) ==> r is Err && r->Err_0 == (DomainError::InvalidPaymentStatusTransition {
            from: payment@.status,
            to: reported_status(event@.status),
        }),
        !lacks_transaction(event@) && !already_applied(payment@, event@) && PaymentStatus::can_move(
            payment@.status,
            reported_status(event@.status),
        ) ==> (r matches Ok(WebhookOutcome::Updated(p)) && p@ == applied(payment@, event@)),
{
    let new_status = status_from_report(event.status.as_str());
    if new_status == PaymentStatus::Successful && event.gateway_transaction_id.is_none() {
        return Err(
            DomainError::PaymentGatewayError {
                signature: String::from_str("missing transaction id"),
            },
        );
    }
    let same_transaction = match (&payment.gateway_transaction_id(), &event.gateway_transaction_id) {
        (Some(a), Some(b)) => str_eq(a.as_str(), b.as_str()),
        (None, None) => true,
        _ => false,
    };
    if payment.status() == new_status && same_transaction {
        return Ok(WebhookOutcome::Unchanged(payment));
    }
    let current = payment.status();
    match PaymentStatus::validate_transition(&current, &new_status) {
        Err(e) => Err(e),
        Ok(()) => match payment.update_status(new_status, clone_opt(&event.gateway_transaction_id)) {
            Ok(p) => Ok(WebhookOutcome::Updated(p)),
            Err(e) => Err(e),
        },
    }
}

/// A report that was applied leaves the payment in a state that the same
/// report no longer changes: handling a report twice is handling it once.
pub proof fn lemma_webhook_idempotent(p: PaymentView, ev: WebhookEventView)
    ensures
        already_applied(applied(p, ev), ev),
{
}

/// A successful payment is never changed by a report: every report is either
/// one that it already reflects or refused.
pub proof fn lemma_successful_payment_is_settled(p: PaymentView, ev: WebhookEventView)
    requires
        p.status == PaymentStatus::Successful,
    ensures
        lacks_transaction(ev) || already_applied(p, ev) || !PaymentStatus::can_move(
            p.status,
            reported_status(ev.status),
        ),
{
}

/// A report that is applied never leaves a successful payment without a
/// gateway transaction.
pub proof fn lemma_success_carries_transaction(p: PaymentView, ev: WebhookEventView)
    requires
        !lacks_transaction(ev),
    ensures
        applied(p, ev).status == PaymentStatus::Successful ==> applied(
            p,
            ev,
        ).gateway_transaction_id is Some,
{
}

/// Before a payment is generated: the shipment must exist, then it must not
/// already have a payment.
pub fn check_payment_allowed(shipment_found: bool, payment_exists: bool, shipment_id: u128) -> (r:
    Result<(), DomainError>)
    ensures
        !shipment_found ==> r is Err && r->Err_0 == (DomainError::ShipmentNotFoundById {
            id: shipment_id,
        }),
        shipment_found && payment_exists ==> r is Err && r->Err_0
            == (DomainError::PaymentExistsForThisShipment { id: shipment_id }),
        shipment_found && !payment_exists ==> r is Ok,
{
    if !shipment_found {
        return Err(DomainError::ShipmentNotFoundById { id: shipment_id });
    }
    if payment_exists {
        return Err(DomainError::PaymentExistsForThisShipment { id: shipment_id });
    }
    Ok(())
}

/// A new payment for the command: pending, with a fresh reference, refused
/// where the command is invalid (see `Payment::generate_payment`).
pub fn new_payment(cmd: &PaymentCommand) -> (r: Result<Payment, DomainError>)
    requires
        cmd.amount.wf(),
    ensures
        ({
            let errs = payment_errors(cmd.customer_id, cmd.shipment_id, cmd.amount);
            &&& errs.len() > 0 ==> r is Err && (r->Err_0 matches DomainError::ValidationError(v)
                && views(v@) == errs)
            &&& errs.len() == 0 ==> r is Ok && ({
                let p = r->Ok_0@;
                &&& p.customer_id == cmd.customer_id
                &&& p.shipment_id == cmd.shipment_id
                &&& p.amount == cmd.amount
                &&& p.status == PaymentStatus::Pending
                &&& p.payment_method == cmd.payment_method
                &&& is_reference_number(p.reference_number)
                &&& p.gateway_transaction_id is None
                &&& p.failure_reason is None
                &&& clock_reading(p.paid_at as int)
            })
        }),
        r is Ok <==> (cmd.customer_id != 0 && cmd.shipment_id != 0 && cmd.amount.is_positive()),
{
    Payment::generate_payment(
        cmd.customer_id(),
        cmd.shipment_id(),
        cmd.amount(),
        cmd.payment_method(),
    )
}

/// The payment to store once the gateway answered: it carries the gateway's
/// reference and is pending.
pub fn payment_to_save(payment: Payment, response: &PaymentGatewayResponse) -> (r: Payment)
    ensures
        r@ == (PaymentView {
            reference_number: response.reference@,
            status: PaymentStatus::Pending,
            ..payment@
        }),
{
    payment.attach_gateway_response(response.reference.clone())
}

/// The payment found under a reference, or the error that names the reference.
pub fn payment_by_reference(found: Option<Payment>, reference: &str) -> (r: Result<
    Payment,
    DomainError,
>)
    ensures
        found is Some ==> r is Ok && r->Ok_0@ == found->0@,
        found is None ==> r is Err && (r->Err_0 matches DomainError::PaymentNotFound { reference: x }
            && x@ == reference@),
{
    match found {
        Some(p) => Ok(p),
        None => Err(DomainError::PaymentNotFound { reference: String::from_str(reference) }),
    }
}

/// The payment found for a shipment, or the error that names the shipment.
pub fn payment_by_shipment(found: Option<Payment>, shipment_id: u128) -> (r: Result<
    Payment,
    DomainError,
>)
    ensures
        found is Some ==> r is Ok && r->Ok_0@ == found->0@,
        found is None ==> r is Err && r->Err_0 == (DomainError::PaymentWithShipmentIdNotFound {
            shipment_id,
        }),
{
    match found {
        Some(p) => Ok(p),
        None => Err(DomainError::PaymentWithShipmentIdNotFound { shipment_id }),
    }
}

/// The revenue of a day or of the week around it (a day numbered from the
/// common era), or the error that names the day.
pub fn revenue_for_date(found: Option<Money>, date: i32) -> (r: Result<Money, DomainError>)
    ensures
        found is Some ==> r == Ok::<Money, DomainError>(found->0),
        found is None ==> r is Err && r->Err_0 == (DomainError::RevenueNotFoundWithDate { date }),
{
    match found {
        Some(m) => Ok(m),
        None => Err(DomainError::RevenueNotFoundWithDate { date }),
    }
}

/// The revenue of a month, or the error that names the month.
pub fn revenue_for_month(found: Option<Money>, month: u32) -> (r: Result<Money, DomainError>)
    ensures
        found is Some ==> r == Ok::<Money, DomainError>(found->0),
        found is None ==> r is Err && r->Err_0 == (DomainError::RevenueNotFound { month }),
{
    match found {
        Some(m) => Ok(m),
        None => Err(DomainError::RevenueNotFound { month }),
    }
}

} // verus!
