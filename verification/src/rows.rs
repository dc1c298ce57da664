//! Stored rows of payments and accounts, and how they turn into the domain's
//! values and back. Statuses, methods and roles are stored by name.
use vstd::prelude::*;

use crate::money::Money;
use crate::payment::{Payment, PaymentMethod, PaymentView};
use crate::payment_status::PaymentStatus;
use crate::proof_of_delivery::opt_view;
use crate::user::{User, UserView};
use crate::user_status::{UserRole, UserStatus};

verus! {

/// A stored payment.
#[derive(Debug)]
pub struct PaymentRow {
    pub customer_id: u128,
    pub shipment_id: u128,
    pub amount: Money,
    pub status: String,
    pub paid_at: i64,
    pub payment_method: String,
    pub reference_number: String,
    pub gateway_transaction_id: Option<String>,
    pub failure_reason: Option<String>,
}

/// What a stored payment holds.
pub struct PaymentRowView {
    pub customer_id: u128,
    pub shipment_id: u128,
    pub amount: Money,
    pub status: Seq<char>,
    pub paid_at: i64,
    pub payment_method: Seq<char>,
    pub reference_number: Seq<char>,
    pub gateway_transaction_id: Option<Seq<char>>,
    pub failure_reason: Option<Seq<char>>,
}

impl View for PaymentRow {
    type V = PaymentRowView;

    open spec fn view(&self) -> PaymentRowView {
        PaymentRowView {
            customer_id: self.customer_id,
            shipment_id: self.shipment_id,
            amount: self.amount,
            status: self.status@,
            paid_at: self.paid_at,
            payment_method: self.payment_method@,
            reference_number: self.reference_number@,
            gateway_transaction_id: opt_view(self.gateway_transaction_id),
            failure_reason: opt_view(self.failure_reason),
        }
    }
}

/// The row that stores a payment: its status and method by name.
pub open spec fn payment_row_of(p: PaymentView) -> PaymentRowView {
    PaymentRowView {
        customer_id: p.customer_id,
        shipment_id: p.shipment_id,
        amount: p.amount,
        status: p.status.name(),
        paid_at: p.paid_at,
        payment_method: p.payment_method.name(),
        reference_number: p.reference_number,
        gateway_transaction_id: p.gateway_transaction_id,
        failure_reason: p.failure_reason,
    }
}

/// The row names a status and a method.
pub open spec fn payment_row_readable(row: PaymentRowView) -> bool {
    &&& PaymentStatus::parse(row.status) is Some
    &&& PaymentMethod::parse(row.payment_method) is Some
}

/// The payment that a readable row stores.
pub open spec fn payment_of_row(row: PaymentRowView) -> PaymentView {
    PaymentView {
        customer_id: row.customer_id,
        shipment_id: row.shipment_id,
        amount: row.amount,
        status: PaymentStatus::parse(row.status).unwrap(),
        paid_at: row.paid_at,
        payment_method: PaymentMethod::parse(row.payment_method).unwrap(),
        reference_number: row.reference_number,
        gateway_transaction_id: row.gateway_transaction_id,
        failure_reason: row.failure_reason,
    }
}

impl PaymentRow {
    /// The payment that the row stores; its status and method must be names of
    /// a status and of a method (a row that holds others is corrupt).
    pub fn into_domain(self) -> (r: Payment)
        requires
            payment_row_readable(self@),
        ensures
            r@ == payment_of_row(self@),
    {
        let status = PaymentStatus::from_string(self.status.as_str()).unwrap();
        let method = PaymentMethod::from_string(self.payment_method.as_str()).unwrap();
        Payment::reconstitute(
            self.customer_id,
            self.shipment_id,
            self.amount,
            status,
            self.paid_at,
            method,
            self.reference_number,
            self.gateway_transaction_id,
            self.failure_reason,
        )
    }

    /// The row that stores the payment.
    pub fn from_domain(payment: Payment) -> (r: PaymentRow)
        ensures
            r@ == payment_row_of(payment@),
    {
        PaymentRow {
            reference_number: payment.reference_number(),
            customer_id: payment.customer_id(),
            shipment_id: payment.shipment_id(),
            amount: payment.amount(),
            status: payment.status().to_string(),
            payment_method: payment.payment_method().to_string(),
            paid_at: payment.paid_at(),
            gateway_transaction_id: payment.gateway_transaction_id(),
            failure_reason: payment.failure_reason(),
        }
    }
}

/// A stored account.
#[derive(Debug)]
pub struct UserRow {
    pub id: u128,
    pub name: String,
    pub email: String,
    pub hash_password: String,
    pub phone_number: String,
    pub role: String,
    pub status: String,
    pub created_at: i64,
    pub updated_at: Option<i64>,
}

/// What a stored account holds.
pub struct UserRowView {
    pub id: u128,
    pub name: Seq<char>,
    pub email: Seq<char>,
    pub hash_password: Seq<char>,
    pub phone_number: Seq<char>,
    pub role: Seq<char>,
    pub status: Seq<char>,
    pub created_at: i64,
    pub updated_at: Option<i64>,
}

impl View for UserRow {
    type V = UserRowView;

    open spec fn view(&self) -> UserRowView {
        UserRowView {
            id: self.id,
            name: self.name@,
            email: self.email@,
            hash_password: self.hash_password@,
            phone_number: self.phone_number@,
            role: self.role@,
            status: self.status@,
            created_at: self.created_at,
            updated_at: self.updated_at,
        }
    }
}

/// The row that stores an account: its role and status by name.
pub open spec fn user_row_of(u: UserView) -> UserRowView {
    UserRowView {
        id: u.id,
        name: u.name,
        email: u.email,
        hash_password: u.hash_password,
        phone_number: u.phone_number,
        role: u.role.name(),
        status: u.status.name(),
        created_at: u.created_at,
        updated_at: u.updated_at,
    }
}

/// The row names a role and a status.
pub open spec fn user_row_readable(row: UserRowView) -> bool {
    &&& UserRole::parse(row.role) is Some
    &&& UserStatus::parse(row.status) is Some
}

/// The account that a readable row stores.
pub open spec fn user_of_row(row: UserRowView) -> UserView {
    UserView {
        id: row.id,
        name: row.name,
        email: row.email,
        hash_password: row.hash_password,
        phone_number: row.phone_number,
        role: UserRole::parse(row.role).unwrap(),
        status: UserStatus::parse(row.status).unwrap(),
        created_at: row.created_at,
        updated_at: row.updated_at,
    }
}

impl UserRow {
    /// The account that the row stores; its role and status must be names of a
    /// role and of a status (a row that holds others is corrupt).
    pub fn from_row(self) -> (r: User)
        requires
            user_row_readable(self@),
        ensures
            r@ == user_of_row(self@),
    {
        let role = UserRole::string_roles(self.role.as_str()).unwrap();
        let status = UserStatus::from_string(self.status.as_str()).unwrap();
        User::reconstitute(
            self.id,
            self.name,
            self.email,
            self.hash_password,
            self.phone_number,
            role,
            status,
            self.created_at,
            self.updated_at,
        )
    }

    /// The row that stores the account.
    pub fn from_domain(user: User) -> (r: UserRow)
        ensures
            r@ == user_row_of(user@),
    {
        UserRow {
            id: user.id(),
            name: user.name(),
            email: user.email(),
            hash_password: user.hash_password(),
            phone_number: user.phone_number(),
            role: user.role().to_string(),
            status: user.status().to_string(),
            created_at: user.created_at(),
            updated_at: user.updated_at(),
        }
    }
}

/// Storing a payment and reading the row back gives the same payment: the row
/// is readable and it stores the payment that was written.
pub proof fn lemma_payment_row_round_trip(p: PaymentView)
    ensures
        payment_row_readable(payment_row_of(p)),
        payment_of_row(payment_row_of(p)) == p,
{
    crate::payment_status::lemma_name_round_trip(p.status);
    crate::payment::lemma_method_name_round_trip(p.payment_method);
}

/// Storing an account and reading the row back gives the same account: the
/// row is readable and it stores the account that was written.
pub proof fn lemma_user_row_round_trip(u: UserView)
    ensures
        user_row_readable(user_row_of(u)),
        user_of_row(user_row_of(u)) == u,
{
    crate::user_status::lemma_role_name_round_trip(u.role);
    crate::user_status::lemma_status_name_round_trip(u.status);
}

} // verus!
