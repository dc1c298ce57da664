//! The payment gateway: what it answers when a payment starts and what it
//! reports back; and the stand-in gateway used in place of a real one.
use vstd::prelude::*;

use crate::error::DomainError;
use crate::payment::Payment;
use crate::proof_of_delivery::opt_view;
use crate::text::cat;

verus! {

/// The gateway's answer to a payment that starts.
#[derive(Debug, Clone)]
pub struct PaymentGatewayResponse {
    pub authorization_url: String,
    pub reference: String,
}

/// What the gateway reports about a payment.
#[derive(Debug, Clone)]
pub struct PaymentWebhookEvent {
    pub reference: String,
    pub status: String,
    pub gateway_transaction_id: Option<String>,
}

/// What a gateway report holds.
pub struct WebhookEventView {
    pub reference: Seq<char>,
    pub status: Seq<char>,
    pub gateway_transaction_id: Option<Seq<char>>,
}

impl View for PaymentWebhookEvent {
    type V = WebhookEventView;

    open spec fn view(&self) -> WebhookEventView {
        WebhookEventView {
            reference: self.reference@,
            status: self.status@,
            gateway_transaction_id: opt_view(self.gateway_transaction_id),
        }
    }
}

impl PaymentWebhookEvent {
    pub fn new(reference: String, status: String, gateway_transaction_id: Option<String>) -> (r:
        PaymentWebhookEvent)
        ensures
            r@ == (WebhookEventView {
                reference: reference@,
                status: status@,
                gateway_transaction_id: opt_view(gateway_transaction_id),
            }),
    {
        PaymentWebhookEvent { reference, status, gateway_transaction_id }
    }
}

/// The address where a payment with this reference is completed at the stand-in gateway.
pub open spec fn mock_payment_url(reference: Seq<char>) -> Seq<char> {
    "https://mock-payments.local/pay/"@ + reference
}

/// A gateway that accepts every payment and every report.
#[derive(Debug)]
pub struct MockPaymentGateway;

impl MockPaymentGateway {
    pub fn new() -> (r: MockPaymentGateway) {
        MockPaymentGateway
    }

    /// Starts a payment: the answer carries the payment's own reference and the
    /// stand-in address built from it.
    pub fn initiate_payment(&self, payment: &Payment) -> (r: Result<
        PaymentGatewayResponse,
        DomainError,
    >)
        ensures
            r is Ok,
            r->Ok_0.reference@ == payment@.reference_number,
            r->Ok_0.authorization_url@ == mock_payment_url(payment@.reference_number),
    {
        let reference = payment.reference_number();
        let url = cat("https://mock-payments.local/pay/", reference.as_str());
        Ok(PaymentGatewayResponse { authorization_url: url, reference })
    }

    /// Accepts every report, whatever its signature.
    pub fn verify_webhook(&self, event: &PaymentWebhookEvent, signature: &str) -> (r: Result<
        (),
        DomainError,
    >)
        ensures
            r is Ok,
    {
        Ok(())
    }
}

} // verus!
