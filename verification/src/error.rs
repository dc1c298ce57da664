//! Errors of the domain and of the storage layer, and how the one becomes the other.
use vstd::prelude::*;

use crate::payment_status::PaymentStatus;
use crate::shipment_status::ShipmentStatus;
use crate::support_status::SupportStatus;
use crate::user_status::UserStatus;
use crate::ids::{uuid_hyphenated, uuid_text};
use crate::clock::{date_display, date_text};
use crate::text::{cat, cat3, decimal_text, join, joined, u64_text, views};

verus! {

/// What the storage layer reports when a statement fails.
#[derive(Debug, Clone, PartialEq, Eq)]
pub enum RepositoryError {
    DuplicateEntity,
    ForeignKeyViolation,
    NullConstraintViolation,
    CheckConstraintViolation,
    DataTooLong,
    InvalidDataFormat,
    NumericOverflow,
    DeadlockDetected,
    TransactionTimeout,
    SerializationFailure,
    DatabaseError(String),
}

/// Every way in which a request can fail. Identifiers are UUID values, a
/// calendar day is its number of days from the common era.
#[derive(Debug)]
pub enum DomainError {
    ShipmentNotFound { tracking_number: String },
    ShipmentNotFoundById { id: u128 },
    ShipmentNotDelivered,
    InvalidShipmentStatusTransition { from: ShipmentStatus, to: ShipmentStatus },
    InvalidPaymentStatusTransition { from: PaymentStatus, to: PaymentStatus },
    InvalidSupportStatusTransition { from: SupportStatus, to: SupportStatus },
    PaymentExistsForThisShipment { id: u128 },
    PaymentNotFound { reference: String },
    PaymentWithShipmentIdNotFound { shipment_id: u128 },
    RevenueNotFoundWithDate { date: i32 },
    RevenueNotFound { month: u32 },
    PaymentGatewayError { signature: String },
    ComplaintNotFound { id: u128 },
    UserNotFound { email: String },
    UserNotFoundWithId { id: u128 },
    UserWithEmailAlreadyExist { email: String },
    UserStatusIsNotActive { status: UserStatus },
    UserIsNotServiceProvider { provider_id: u128 },
    InvalidCredentials,
    ProofMustContainImageOrNote,
    DuplicateProofOfDelivery,
    UpdateProofOfDeliveryError(String),
    SubmittedByEmptyError,
    ValidationError(Vec<String>),
    DuplicateEntity,
    ForeignKeyViolation,
    NullConstraintViolation,
    CheckConstraintViolation,
    DataTooLong,
    InvalidDataFormat,
    NumericOverflow,
    DeadlockDetected,
    TransactionTimeout,
    SerializationFailure,
    Internal(String),
    DatabaseError(String),
}

/// The domain error that a storage error stands for: the variant of the same name.
pub open spec fn domain_error_of(err: RepositoryError) -> DomainError {
    match err {
        RepositoryError::DuplicateEntity => DomainError::DuplicateEntity,
        RepositoryError::ForeignKeyViolation => DomainError::ForeignKeyViolation,
        RepositoryError::NullConstraintViolation => DomainError::NullConstraintViolation,
        RepositoryError::CheckConstraintViolation => DomainError::CheckConstraintViolation,
        RepositoryError::DataTooLong => DomainError::DataTooLong,
        RepositoryError::InvalidDataFormat => DomainError::InvalidDataFormat,
        RepositoryError::NumericOverflow => DomainError::NumericOverflow,
        RepositoryError::DeadlockDetected => DomainError::DeadlockDetected,
        RepositoryError::TransactionTimeout => DomainError::TransactionTimeout,
        RepositoryError::SerializationFailure => DomainError::SerializationFailure,
        RepositoryError::DatabaseError(msg) => DomainError::DatabaseError(msg),
    }
}

impl DomainError {
    /// The text that describes the error.
    pub open spec fn text(self) -> Seq<char> {
        match self {
            DomainError::ShipmentNotFound { tracking_number } => "Shipment "@ + tracking_number@ + " not found"@,
            DomainError::ShipmentNotFoundById { id } => "Shipment with id: "@ + uuid_hyphenated(id) + " not found"@,
            DomainError::ShipmentNotDelivered => "Shipment status found is not delivered"@,
            DomainError::InvalidShipmentStatusTransition { from, to } => "Invalid shipment status transition from "@ + from.name() + " to "@ + to.name(),
            DomainError::InvalidPaymentStatusTransition { from, to } => "Invalid payment status transition from "@ + from.name() + " to "@ + to.name(),
            DomainError::InvalidSupportStatusTransition { from, to } => "Invalid support status transition from "@ + from.name() + " to "@ + to.name(),
            DomainError::ProofMustContainImageOrNote => "Proof of delivery must contain either an image or a note."@,
            DomainError::DuplicateProofOfDelivery => "Duplicate proof detected."@,
            DomainError::UpdateProofOfDeliveryError(cause) => "Unable to update the proof of delivery: "@ + cause@,
            DomainError::SubmittedByEmptyError => "Unable to fecth the proof's sender details"@,
            DomainError::ValidationError(causes) => "Validation failed: "@ + joined(views(causes@), ", "@),
            DomainError::DuplicateEntity => "Duplicate entity"@,
            DomainError::PaymentExistsForThisShipment { id } => "Payment for shipment with id: "@ + uuid_hyphenated(id) + " already made"@,
            DomainError::PaymentNotFound { reference } => "Payment "@ + reference@ + " not found"@,
            DomainError::PaymentWithShipmentIdNotFound { shipment_id } => "Payment with shipment id "@ + uuid_hyphenated(shipment_id) + " not found"@,
            DomainError::PaymentGatewayError { signature } => "Invalid signature "@ + signature@ + " "@,
            DomainError::RevenueNotFoundWithDate { date } => "Revenue "@ + date_display(date as int) + " not found"@,
            DomainError::RevenueNotFound { month } => "Revenue "@ + decimal_text(month as nat) + " not found"@,
            DomainError::ComplaintNotFound { id } => "Complaint with id: "@ + uuid_hyphenated(id) + " not found"@,
            DomainError::UserNotFound { email } => "User with email "@ + email@ + " not found"@,
            DomainError::UserNotFoundWithId { id } => "User with id: "@ + uuid_hyphenated(id) + " not found"@,
            DomainError::UserWithEmailAlreadyExist { email } => "User with email "@ + email@ + " already exists"@,
            DomainError::UserStatusIsNotActive { status } => "User status "@ + status.name() + " is not active"@,
            DomainError::UserIsNotServiceProvider { provider_id } => "User with id: "@ + uuid_hyphenated(provider_id) + " is not a service provider"@,
            DomainError::InvalidCredentials => "Invalid credentials"@,
            DomainError::ForeignKeyViolation => "Foreign key violation"@,
            DomainError::NullConstraintViolation => "Null constraint violation"@,
            DomainError::CheckConstraintViolation => "Check constraint violation"@,
            DomainError::DataTooLong => "Data too long"@,
            DomainError::InvalidDataFormat => "Invalid data format"@,
            DomainError::NumericOverflow => "Numeric overflow"@,
            DomainError::DeadlockDetected => "Deadlock detected"@,
            DomainError::TransactionTimeout => "Transaction timeout"@,
            DomainError::SerializationFailure => "Serialization failure"@,
            DomainError::DatabaseError(msg) => "Database error: "@ + msg@,
            DomainError::Internal(msg) => "Internal system error: "@ + msg@,
        }
    }

    /// The text that describes the error.
    pub fn message(&self) -> (r: String)
        ensures
            r@ == self.text(),
    {
        match self {
            DomainError::ShipmentNotFound { tracking_number } => cat3("Shipment ", tracking_number.as_str(), " not found"),
            DomainError::ShipmentNotFoundById { id } => cat3("Shipment with id: ", uuid_text(*id).as_str(), " not found"),
            DomainError::ShipmentNotDelivered => String::from_str("Shipment status found is not delivered"),
            DomainError::InvalidShipmentStatusTransition { from, to } => cat3("Invalid shipment status transition from ", from.to_string().as_str(), " to ").concat(to.to_string().as_str()),
            DomainError::InvalidPaymentStatusTransition { from, to } => cat3("Invalid payment status transition from ", from.to_string().as_str(), " to ").concat(to.to_string().as_str()),
            DomainError::InvalidSupportStatusTransition { from, to } => cat3("Invalid support status transition from ", from.to_string().as_str(), " to ").concat(to.to_string().as_str()),
            DomainError::ProofMustContainImageOrNote => String::from_str("Proof of delivery must contain either an image or a note."),
            DomainError::DuplicateProofOfDelivery => String::from_str("Duplicate proof detected."),
            DomainError::UpdateProofOfDeliveryError(cause) => cat("Unable to update the proof of delivery: ", cause.as_str()),
            DomainError::SubmittedByEmptyError => String::from_str("Unable to fecth the proof's sender details"),
            DomainError::ValidationError(causes) => cat("Validation failed: ", join(causes, ", ").as_str()),
            DomainError::DuplicateEntity => String::from_str("Duplicate entity"),
            DomainError::PaymentExistsForThisShipment { id } => cat3("Payment for shipment with id: ", uuid_text(*id).as_str(), " already made"),
            DomainError::PaymentNotFound { reference } => cat3("Payment ", reference.as_str(), " not found"),
            DomainError::PaymentWithShipmentIdNotFound { shipment_id } => cat3("Payment with shipment id ", uuid_text(*shipment_id).as_str(), " not found"),
            DomainError::PaymentGatewayError { signature } => cat3("Invalid signature ", signature.as_str(), " "),
            DomainError::RevenueNotFoundWithDate { date } => cat3("Revenue ", date_text(*date).as_str(), " not found"),
            DomainError::RevenueNotFound { month } => cat3("Revenue ", u64_text(*month as u64).as_str(), " not found"),
            DomainError::ComplaintNotFound { id } => cat3("Complaint with id: ", uuid_text(*id).as_str(), " not found"),
            DomainError::UserNotFound { email } => cat3("User with email ", email.as_str(), " not found"),
            DomainError::UserNotFoundWithId { id } => cat3("User with id: ", uuid_text(*id).as_str(), " not found"),
            DomainError::UserWithEmailAlreadyExist { email } => cat3("User with email ", email.as_str(), " already exists"),
            DomainError::UserStatusIsNotActive { status } => cat3("User status ", status.to_string().as_str(), " is not active"),
            DomainError::UserIsNotServiceProvider { provider_id } => cat3("User with id: ", uuid_text(*provider_id).as_str(), " is not a service provider"),
            DomainError::InvalidCredentials => String::from_str("Invalid credentials"),
            DomainError::ForeignKeyViolation => String::from_str("Foreign key violation"),
            DomainError::NullConstraintViolation => String::from_str("Null constraint violation"),
            DomainError::CheckConstraintViolation => String::from_str("Check constraint violation"),
            DomainError::DataTooLong => String::from_str("Data too long"),
            DomainError::InvalidDataFormat => String::from_str("Invalid data format"),
            DomainError::NumericOverflow => String::from_str("Numeric overflow"),
            DomainError::DeadlockDetected => String::from_str("Deadlock detected"),
            DomainError::TransactionTimeout => String::from_str("Transaction timeout"),
            DomainError::SerializationFailure => String::from_str("Serialization failure"),
            DomainError::DatabaseError(msg) => cat("Database error: ", msg.as_str()),
            DomainError::Internal(msg) => cat("Internal system error: ", msg.as_str()),
        }
    }

    /// The domain error for a storage error.
    pub fn from_repository(err: RepositoryError) -> (r: DomainError)
        ensures
            r == domain_error_of(err),
    {
        match err {
            RepositoryError::DuplicateEntity => DomainError::DuplicateEntity,
            RepositoryError::ForeignKeyViolation => DomainError::ForeignKeyViolation,
            RepositoryError::NullConstraintViolation => DomainError::NullConstraintViolation,
            RepositoryError::CheckConstraintViolation => DomainError::CheckConstraintViolation,
            RepositoryError::DataTooLong => DomainError::DataTooLong,
            RepositoryError::InvalidDataFormat => DomainError::InvalidDataFormat,
            RepositoryError::NumericOverflow => DomainError::NumericOverflow,
            RepositoryError::DeadlockDetected => DomainError::DeadlockDetected,
            RepositoryError::TransactionTimeout => DomainError::TransactionTimeout,
            RepositoryError::SerializationFailure => DomainError::SerializationFailure,
            RepositoryError::DatabaseError(msg) => DomainError::DatabaseError(msg),
        }
    }
}

impl From<RepositoryError> for DomainError {
    fn from(err: RepositoryError) -> (r: DomainError) {
        DomainError::from_repository(err)
    }
}

impl vstd::std_specs::convert::FromSpecImpl<RepositoryError> for DomainError {
    open spec fn obeys_from_spec() -> bool {
        true
    }

    open spec fn from_spec(err: RepositoryError) -> DomainError {
        domain_error_of(err)
    }
}

} // verus!
