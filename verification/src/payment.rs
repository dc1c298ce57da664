//! Payments for shipments.
use vstd::prelude::*;
use vstd::arithmetic::power::lemma_pow_positive;

use crate::clock::{clock_reading, now_micros, EARLIEST_INSTANT, LATEST_INSTANT};
use crate::error::DomainError;
use crate::ids::{fresh_id, hex_lower, hex_upper, nibble, uuid_hyphenated, uuid_text};
use crate::money::{decimal_display, money_text, Money};
use crate::payment_status::PaymentStatus;
use crate::proof_of_delivery::{clone_opt, opt_view};
use crate::text::{cat, listed_if, note, push_char, str_eq, views};

verus! {

/// How a customer pays.
#[derive(Debug, Clone, Copy, PartialEq, Eq, Structural)]
pub enum PaymentMethod {
    Card,
    MobileMoney,
    BankTransfer,
}

impl PaymentMethod {
    /// The name of the method, as it is written and read back.
    pub open spec fn name(self) -> Seq<char> {
        match self {
            PaymentMethod::Card => "Card"@,
            PaymentMethod::MobileMoney => "MobileMoney"@,
            PaymentMethod::BankTransfer => "BankTransfer"@,
        }
    }

    /// The method that a text names, if it names one.
    pub open spec fn parse(s: Seq<char>) -> Option<PaymentMethod> {
        if s == "Card"@ {
            Some(PaymentMethod::Card)
        } else if s == "MobileMoney"@ {
            Some(PaymentMethod::MobileMoney)
        } else if s == "BankTransfer"@ {
            Some(PaymentMethod::BankTransfer)
        } else {
            None
        }
    }

    /// Every method, in the order `Card`, `MobileMoney`, `BankTransfer`.
    pub fn methods() -> (r: &'static [PaymentMethod])
        ensures
            r@ == seq![
                PaymentMethod::Card,
                PaymentMethod::MobileMoney,
                PaymentMethod::BankTransfer,
            ],
    {
        &[
            PaymentMethod::Card,
            PaymentMethod::MobileMoney,
            PaymentMethod::BankTransfer,
        ]
    }

    /// The method named by `value`, or `None` where it names none.
    pub fn from_string(value: &str) -> (r: Option<PaymentMethod>)
        ensures
            r == PaymentMethod::parse(value@),
    {
        if str_eq(value, "Card") {
            Some(PaymentMethod::Card)
        } else if str_eq(value, "MobileMoney") {
            Some(PaymentMethod::MobileMoney)
        } else if str_eq(value, "BankTransfer") {
            Some(PaymentMethod::BankTransfer)
        } else {
            None
        }
    }

    /// The name of the method.
    pub fn to_string(&self) -> (r: String)
        ensures
            r@ == self.name(),
    {
        match self {
            PaymentMethod::Card => String::from_str("Card"),
            PaymentMethod::MobileMoney => String::from_str("MobileMoney"),
            PaymentMethod::BankTransfer => String::from_str("BankTransfer"),
        }
    }
}

/// Reading back the name of a method gives the method.
pub proof fn lemma_method_name_round_trip(m: PaymentMethod)
    ensures
        PaymentMethod::parse(m.name()) == Some(m),
{
    reveal_strlit("Card");
    reveal_strlit("MobileMoney");
    reveal_strlit("BankTransfer");
    assert("Card"@.len() == 4);
    assert("MobileMoney"@.len() == 11);
    assert("BankTransfer"@.len() == 12);
}

/// What a payment holds. `paid_at` is in microseconds since the Unix epoch.
pub struct PaymentView {
    pub customer_id: u128,
    pub shipment_id: u128,
    pub amount: Money,
    pub status: PaymentStatus,
    pub paid_at: i64,
    pub payment_method: PaymentMethod,
    pub reference_number: Seq<char>,
    pub gateway_transaction_id: Option<Seq<char>>,
    pub failure_reason: Option<Seq<char>>,
}

/// A payment for a shipment.
#[derive(Debug)]
pub struct Payment {
    customer_id: u128,
    shipment_id: u128,
    amount: Money,
    status: PaymentStatus,
    paid_at: i64,
    payment_method: PaymentMethod,
    reference_number: String,
    gateway_transaction_id: Option<String>,
    failure_reason: Option<String>,
}

/// A request to pay for a shipment.
#[derive(Debug)]
pub struct PaymentCommand {
    pub customer_id: u128,
    pub shipment_id: u128,
    pub amount: Money,
    pub payment_method: PaymentMethod,
}

/// A payment that was started, and the address where the customer completes it.
#[derive(Debug)]
pub struct GeneratePaymentResponse {
    pub payment: Payment,
    pub authorization_url: String,
}

/// A reference number: `RF-DODO-` followed by the first ten hexadecimal
/// digits, upper case, of a UUID.
pub open spec fn is_reference_number(r: Seq<char>) -> bool {
    exists|u: u128| r == reference_for(u)
}

/// The reference number made from the UUID `u`.
pub open spec fn reference_for(u: u128) -> Seq<char> {
    "RF-DODO-"@ + Seq::new(10, |i: int| hex_upper(nibble(u, i)))
}

/// What is wrong with a request to pay, in order: customer, shipment, amount;
/// empty where nothing is.
pub open spec fn payment_errors(customer_id: u128, shipment_id: u128, amount: Money) -> Seq<
    Seq<char>,
> {
    listed_if(customer_id == 0, "Customer id must not be empty"@) + listed_if(
        shipment_id == 0,
        "Shipment id  must not be empty"@,
    ) + listed_if(
        !amount.is_positive(),
        "Amount must be a positive value: "@ + decimal_display(
            amount.mantissa as int,
            amount.scale as int,
        ),
    )
}

/// The upper-case letter for a lower-case ASCII letter; any other character as it is.
fn ascii_upper(c: char) -> (r: char)
    ensures
        forall|d: int| 0 <= d < 16 && c == hex_lower(d) ==> r == hex_upper(d),
{
    let n = c as u32;
    if 97 <= n && n <= 122 {
        ((n - 32) as u8) as char
    } else {
        c
    }
}

proof fn lemma_nibble_range(u: u128, k: int)
    requires
        0 <= k < 32,
    ensures
        0 <= nibble(u, k) < 16,
{
    lemma_pow_positive(16, (31 - k) as nat);
}

impl PaymentCommand {
    pub fn new(customer_id: u128, shipment_id: u128, amount: Money, payment_method: PaymentMethod) -> (r:
        PaymentCommand)
        ensures
            r == (PaymentCommand { customer_id, shipment_id, amount, payment_method }),
    {
        PaymentCommand { customer_id, shipment_id, amount, payment_method }
    }

    pub fn customer_id(&self) -> (r: u128)
        ensures
            r == self.customer_id,
    {
        self.customer_id
    }

    pub fn shipment_id(&self) -> (r: u128)
        ensures
            r == self.shipment_id,
    {
        self.shipment_id
    }

    pub fn amount(&self) -> (r: Money)
        ensures
            r == self.amount,
    {
        self.amount
    }

    pub fn payment_method(&self) -> (r: PaymentMethod)
        ensures
            r == self.payment_method,
    {
        self.payment_method
    }
}

impl View for Payment {
    type V = PaymentView;

    closed spec fn view(&self) -> PaymentView {
        PaymentView {
            customer_id: self.customer_id,
            shipment_id: self.shipment_id,
            amount: self.amount,
            status: self.status,
            paid_at: self.paid_at,
            payment_method: self.payment_method,
            reference_number: self.reference_number@,
            gateway_transaction_id: opt_view(self.gateway_transaction_id),
            failure_reason: opt_view(self.failure_reason),
        }
    }
}

impl Payment {
    /// A new pending payment with a fresh reference number, stamped with the
    /// current time; refused with the list of problems where the customer or
    /// the shipment is the nil identifier or the amount is not positive.
    pub fn generate_payment(
        customer_id: u128,
        shipment_id: u128,
        amount: Money,
        payment_method: PaymentMethod,
    ) -> (r: Result<Payment, DomainError>)
        requires
            amount.wf(),
        ensures
            ({
                let errs = payment_errors(customer_id, shipment_id, amount);
                &&& errs.len() > 0 ==> r is Err && (r->Err_0 matches DomainError::ValidationError(
                    v,
                ) && views(v@) == errs)
                &&& errs.len() == 0 ==> r is Ok && ({
                    let p = r->Ok_0@;
                    &&& p.customer_id == customer_id
                    &&& p.shipment_id == shipment_id
                    &&& p.amount == amount
                    &&& p.status == PaymentStatus::Pending
                    &&& p.payment_method == payment_method
                    &&& is_reference_number(p.reference_number)
                    &&& p.gateway_transaction_id is None
                    &&& p.failure_reason is None
                    &&& EARLIEST_INSTANT <= p.paid_at <= LATEST_INSTANT
                    &&& clock_reading(p.paid_at as int)
                })
            }),
    {
        let mut errors: Vec<String> = Vec::new();
        note(&mut errors, customer_id == 0, String::from_str("Customer id must not be empty"));
        note(&mut errors, shipment_id == 0, String::from_str("Shipment id  must not be empty"));
        note(
            &mut errors,
            !amount.positive(),
            cat("Amount must be a positive value: ", money_text(&amount).as_str()),
        );
        proof {
            assert(views(Seq::<String>::empty()) =~= Seq::<Seq<char>>::empty());
            assert(views(errors@) =~= payment_errors(customer_id, shipment_id, amount));
        }
        if errors.len() > 0 {
            return Err(DomainError::ValidationError(errors));
        }
        let now = now_micros();
        Ok(
            Payment {
                customer_id,
                shipment_id,
                amount,
                status: PaymentStatus::Pending,
                paid_at: now,
                payment_method,
                reference_number: Payment::generate_reference_number(),
                gateway_transaction_id: None,
                failure_reason: None,
            },
        )
    }

    /// `RF-DODO-` followed by the first ten digits of a fresh UUID, its hyphens
    /// removed, in upper case.
    fn generate_reference_number() -> (r: String)
        ensures
            is_reference_number(r@),
    {
        let u = fresh_id();
        let text = uuid_text(u);
        let mut out = String::from_str("RF-DODO-");
        let mut p: usize = 0;
        let mut count: usize = 0;
        while count < 10
            invariant
                text@ == uuid_hyphenated(u),
                0 <= p <= 11,
                count == (if p <= 8 {
                    p as int
                } else {
                    p - 1
                }),
                out@ == "RF-DODO-"@ + Seq::new(count as nat, |i: int| hex_upper(nibble(u, i))),
            decreases 11 - p,
        {
            let c = text.as_str().get_char(p);
            if c != '-' {
                proof {
                    assert(p != 8);
                    lemma_nibble_range(u, count as int);
                    assert(c == hex_lower(nibble(u, count as int)));
                }
                let up = ascii_upper(c);
                let ghost before = out@;
                push_char(&mut out, up);
                proof {
                    assert(out@ =~= "RF-DODO-"@ + Seq::new(
                        (count + 1) as nat,
                        |i: int| hex_upper(nibble(u, i)),
                    ));
                }
                count = count + 1;
            } else {
                proof {
                    assert(p == 8) by {
                        if p != 8 {
                            lemma_nibble_range(u, count as int);
                        }
                    }
                }
            }
            p = p + 1;
        }
        assert(out@ == reference_for(u));
        out
    }

    /// The payment with the reference that the gateway returned, and pending.
    pub fn attach_gateway_response(self, reference_number: String) -> (r: Payment)
        ensures
            r@ == (PaymentView {
                reference_number: reference_number@,
                status: PaymentStatus::Pending,
                ..self@
            }),
    {
        Payment { reference_number, status: PaymentStatus::Pending, ..self }
    }

    /// The payment with a new status and gateway transaction; refused where a
    /// payment would become successful without a transaction.
    pub fn update_status(self, status: PaymentStatus, gateway_transaction_id: Option<String>) -> (r:
        Result<Payment, DomainError>)
        ensures
            status == PaymentStatus::Successful && gateway_transaction_id is None ==> r is Err
                && (r->Err_0 matches DomainError::PaymentGatewayError { signature } && signature@
                == "missing transaction id"@),
            !(status == PaymentStatus::Successful && gateway_transaction_id is None) ==> r is Ok
                && r->Ok_0@ == (PaymentView {
                status,
                gateway_transaction_id: opt_view(gateway_transaction_id),
                ..self@
            }),
    {
        if status == PaymentStatus::Successful && gateway_transaction_id.is_none() {
            return Err(
                DomainError::PaymentGatewayError {
                    signature: String::from_str("missing transaction id"),
                },
            );
        }
        Ok(Payment { status, gateway_transaction_id, ..self })
    }

    pub fn reference_number(&self) -> (r: String)
        ensures
            r@ == self@.reference_number,
    {
        self.reference_number.clone()
    }

    pub fn customer_id(&self) -> (r: u128)
        ensures
            r == self@.customer_id,
    {
        self.customer_id
    }

    pub fn shipment_id(&self) -> (r: u128)
        ensures
            r == self@.shipment_id,
    {
        self.shipment_id
    }

    pub fn amount(&self) -> (r: Money)
        ensures
            r == self@.amount,
    {
        self.amount
    }

    pub fn status(&self) -> (r: PaymentStatus)
        ensures
            r == self@.status,
    {
        self.status
    }

    pub fn payment_method(&self) -> (r: PaymentMethod)
        ensures
            r == self@.payment_method,
    {
        self.payment_method
    }

    pub fn paid_at(&self) -> (r: i64)
        ensures
            r == self@.paid_at,
    {
        self.paid_at
    }

    pub fn gateway_transaction_id(&self) -> (r: Option<String>)
        ensures
            opt_view(r) == self@.gateway_transaction_id,
    {
        clone_opt(&self.gateway_transaction_id)
    }

    pub fn failure_reason(&self) -> (r: Option<String>)
        ensures
            opt_view(r) == self@.failure_reason,
    {
        clone_opt(&self.failure_reason)
    }

    pub fn set_status(&mut self, status: PaymentStatus)
        ensures
            final(self)@ == (PaymentView { status, ..old(self)@ }),
    {
        self.status = status;
    }

    pub fn set_failure_reason(&mut self, reason: Option<String>)
        ensures
            final(self)@ == (PaymentView { failure_reason: opt_view(reason), ..old(self)@ }),
    {
        self.failure_reason = reason;
    }

    pub fn set_gateway_transaction_id(&mut self, id: Option<String>)
        ensures
            final(self)@ == (PaymentView { gateway_transaction_id: opt_view(id), ..old(self)@ }),
    {
        self.gateway_transaction_id = id;
    }

    pub fn set_paid_at(&mut self, paid: i64)
        ensures
            final(self)@ == (PaymentView { paid_at: paid, ..old(self)@ }),
    {
        self.paid_at = paid;
    }

    /// A payment as it was stored.
    pub fn reconstitute(
        customer_id: u128,
        shipment_id: u128,
        amount: Money,
        status: PaymentStatus,
        paid_at: i64,
        payment_method: PaymentMethod,
        reference_number: String,
        gateway_transaction_id: Option<String>,
        failure_reason: Option<String>,
    ) -> (r: Payment)
        ensures
            r@ == (PaymentView {
                customer_id,
                shipment_id,
                amount,
                status,
                paid_at,
                payment_method,
                reference_number: reference_number@,
                gateway_transaction_id: opt_view(gateway_transaction_id),
                failure_reason: opt_view(failure_reason),
            }),
    {
        Payment {
            customer_id,
            shipment_id,
            amount,
            status,
            paid_at,
            payment_method,
            reference_number,
            gateway_transaction_id,
            failure_reason,
        }
    }
}

impl Clone for Payment {
    fn clone(&self) -> (r: Payment)
        ensures
            r@ == self@,
    {
        Payment {
            customer_id: self.customer_id,
            shipment_id: self.shipment_id,
            amount: self.amount,
            status: self.status,
            paid_at: self.paid_at,
            payment_method: self.payment_method,
            reference_number: self.reference_number.clone(),
            gateway_transaction_id: clone_opt(&self.gateway_transaction_id),
            failure_reason: clone_opt(&self.failure_reason),
        }
    }
}

} // verus!
