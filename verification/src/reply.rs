//! How a failed request is answered: a status code and a body.
use vstd::prelude::*;

use crate::clock::{date_display, date_text};
use crate::error::DomainError;
use crate::ids::{uuid_hyphenated, uuid_text};
use crate::shipment_status::ShipmentStatus;
use crate::support_status::SupportStatus;
use crate::text::{cat3, decimal_text, u64_text, views};
use crate::user_status::UserStatus;

verus! {

/// The body of an answer.
#[derive(Debug)]
pub enum ReplyBody {
    /// A JSON object `{"error": error, "message": message}`.
    Message { error: String, message: String },
    /// A JSON object `{"error": error, "messages": messages}`.
    Messages { error: String, messages: Vec<String> },
    /// A plain text.
    Text(String),
}

/// An answer to a failed request.
#[derive(Debug)]
pub struct ErrorReply {
    pub status: u16,
    pub body: ReplyBody,
}

/// What a body holds.
pub enum BodyView {
    Message { error: Seq<char>, message: Seq<char> },
    Messages { error: Seq<char>, messages: Seq<Seq<char>> },
    Text(Seq<char>),
}

/// What an answer holds.
pub struct ReplyView {
    pub status: u16,
    pub body: BodyView,
}

impl View for ReplyBody {
    type V = BodyView;

    open spec fn view(&self) -> BodyView {
        match self {
            ReplyBody::Message { error, message } => BodyView::Message {
                error: error@,
                message: message@,
            },
            ReplyBody::Messages { error, messages } => BodyView::Messages {
                error: error@,
                messages: views(messages@),
            },
            ReplyBody::Text(t) => BodyView::Text(t@),
        }
    }
}

impl View for ErrorReply {
    type V = ReplyView;

    open spec fn view(&self) -> ReplyView {
        ReplyView { status: self.status, body: self.body@ }
    }
}

impl ErrorReply {
    /// An answer with a JSON body that holds one message.
    pub fn message(status: u16, error: &str, message: String) -> (r: ErrorReply)
        ensures
            r@ == (ReplyView { status, body: BodyView::Message { error: error@, message: message@ } }),
    {
        ErrorReply { status, body: ReplyBody::Message { error: String::from_str(error), message } }
    }

    /// An answer with a JSON body that holds a list of messages.
    pub fn messages(status: u16, error: &str, messages: Vec<String>) -> (r: ErrorReply)
        ensures
            r@ == (ReplyView {
                status,
                body: BodyView::Messages { error: error@, messages: views(messages@) },
            }),
    {
        ErrorReply { status, body: ReplyBody::Messages { error: String::from_str(error), messages } }
    }

    /// An answer with a plain text body.
    pub fn text(status: u16, body: &str) -> (r: ErrorReply)
        ensures
            r@ == (ReplyView { status, body: BodyView::Text(body@) }),
    {
        ErrorReply { status, body: ReplyBody::Text(String::from_str(body)) }
    }
}

/// The answer to a request that failed with `err`: 404 for what was not found,
/// 400 for invalid input and constraint violations, 409 for duplicates, 503 for
/// transient database trouble, 500 for the rest.
pub open spec fn reply_for(err: DomainError) -> ReplyView {
    match err {
            DomainError::ShipmentNotFound { tracking_number } => ReplyView { status: 404, body: BodyView::Message { error: "ShipmentNotFound"@, message: "Shipment "@ + tracking_number@ + " not found"@ } },
            DomainError::ShipmentNotFoundById { id } => ReplyView { status: 404, body: BodyView::Message { error: "ShipmentNotFound"@, message: "Shipment with id "@ + uuid_hyphenated(id) + " not found"@ } },
            DomainError::PaymentNotFound { reference } => ReplyView { status: 404, body: BodyView::Message { error: "PaymentNotFound"@, message: "Payment "@ + reference@ + " not found"@ } },
            DomainError::PaymentWithShipmentIdNotFound { shipment_id } => ReplyView { status: 404, body: BodyView::Message { error: "PaymentNotFound"@, message: "Payment with id: "@ + uuid_hyphenated(shipment_id) + " not found"@ } },
            DomainError::RevenueNotFoundWithDate { date } => ReplyView { status: 404, body: BodyView::Message { error: "RevenueNotFound"@, message: "Revenue for this day: "@ + date_display(date as int) + " not found"@ } },
            DomainError::RevenueNotFound { month } => ReplyView { status: 404, body: BodyView::Message { error: "RevenueNotFound"@, message: "Revenue for this month: "@ + decimal_text(month as nat) + " not found"@ } },
            DomainError::ValidationError(errors) => ReplyView { status: 400, body: BodyView::Messages { error: "ValidationError"@, messages: views(errors@) } },
            DomainError::InvalidShipmentStatusTransition { from, to } => ReplyView { status: 400, body: BodyView::Message { error: "InvalidShipmentStatusTransition"@, message: "Cannot move from "@ + from.name() + " to "@ + to.name() } },
            DomainError::ShipmentNotDelivered => ReplyView { status: 400, body: BodyView::Message { error: "ShipmentNotDelivered"@, message: "Shipment must be delivered before this operation"@ } },
            DomainError::ProofMustContainImageOrNote => ReplyView { status: 400, body: BodyView::Message { error: "ProofValidationError"@, message: "Proof must contain either an image or a note"@ } },
            DomainError::SubmittedByEmptyError => ReplyView { status: 400, body: BodyView::Message { error: "SubmittedByEmpty"@, message: "Submitted_by cannot be empty"@ } },
            DomainError::PaymentGatewayError { signature } => ReplyView { status: 400, body: BodyView::Message { error: "ShipmentNotDelivered"@, message: "Invalid signature "@ + signature@ + " "@ } },
            DomainError::DuplicateProofOfDelivery => ReplyView { status: 409, body: BodyView::Message { error: "DuplicateProof"@, message: "Proof of delivery already exists"@ } },
            DomainError::DuplicateEntity => ReplyView { status: 409, body: BodyView::Message { error: "DuplicateEntity"@, message: "Entity already exists"@ } },
            DomainError::PaymentExistsForThisShipment { id } => ReplyView { status: 409, body: BodyView::Message { error: "Duplicate"@, message: "Payment with shipment id: "@ + uuid_hyphenated(id) + ", already exists"@ } },
            DomainError::ForeignKeyViolation => ReplyView { status: 400, body: BodyView::Message { error: "DatabaseConstraintViolation"@, message: err.text() } },
            DomainError::NullConstraintViolation => ReplyView { status: 400, body: BodyView::Message { error: "DatabaseConstraintViolation"@, message: err.text() } },
            DomainError::CheckConstraintViolation => ReplyView { status: 400, body: BodyView::Message { error: "DatabaseConstraintViolation"@, message: err.text() } },
            DomainError::DataTooLong => ReplyView { status: 400, body: BodyView::Message { error: "DatabaseConstraintViolation"@, message: err.text() } },
            DomainError::InvalidDataFormat => ReplyView { status: 400, body: BodyView::Message { error: "DatabaseConstraintViolation"@, message: err.text() } },
            DomainError::NumericOverflow => ReplyView { status: 400, body: BodyView::Message { error: "DatabaseConstraintViolation"@, message: err.text() } },
            DomainError::DeadlockDetected => ReplyView { status: 503, body: BodyView::Message { error: "TransientDatabaseError"@, message: "Temporary database issue, please retry"@ } },
            DomainError::TransactionTimeout => ReplyView { status: 503, body: BodyView::Message { error: "TransientDatabaseError"@, message: "Temporary database issue, please retry"@ } },
            DomainError::SerializationFailure => ReplyView { status: 503, body: BodyView::Message { error: "TransientDatabaseError"@, message: "Temporary database issue, please retry"@ } },
            DomainError::DatabaseError(msg) => ReplyView { status: 500, body: BodyView::Message { error: "DatabaseError"@, message: msg@ } },
            _ => ReplyView { status: 500, body: BodyView::Message { error: "InternalError"@, message: err.text() } },
    }
}

/// The answer to a request that failed with `err`.
pub fn map_domain_error(err: DomainError) -> (r: ErrorReply)
    ensures
        r@ == reply_for(err),
{
    match err {
            DomainError::ShipmentNotFound { tracking_number } => ErrorReply::message(404, "ShipmentNotFound", cat3("Shipment ", tracking_number.as_str(), " not found")),
            DomainError::ShipmentNotFoundById { id } => ErrorReply::message(404, "ShipmentNotFound", cat3("Shipment with id ", uuid_text(id).as_str(), " not found")),
            DomainError::PaymentNotFound { reference } => ErrorReply::message(404, "PaymentNotFound", cat3("Payment ", reference.as_str(), " not found")),
            DomainError::PaymentWithShipmentIdNotFound { shipment_id } => ErrorReply::message(404, "PaymentNotFound", cat3("Payment with id: ", uuid_text(shipment_id).as_str(), " not found")),
            DomainError::RevenueNotFoundWithDate { date } => ErrorReply::message(404, "RevenueNotFound", cat3("Revenue for this day: ", date_text(date).as_str(), " not found")),
            DomainError::RevenueNotFound { month } => ErrorReply::message(404, "RevenueNotFound", cat3("Revenue for this month: ", u64_text(month as u64).as_str(), " not found")),
            DomainError::ValidationError(errors) => ErrorReply::messages(400, "ValidationError", errors),
            DomainError::InvalidShipmentStatusTransition { from, to } => ErrorReply::message(400, "InvalidShipmentStatusTransition", cat3("Cannot move from ", from.to_string().as_str(), " to ").concat(to.to_string().as_str())),
            DomainError::ShipmentNotDelivered => ErrorReply::message(400, "ShipmentNotDelivered", String::from_str("Shipment must be delivered before this operation")),
            DomainError::ProofMustContainImageOrNote => ErrorReply::message(400, "ProofValidationError", String::from_str("Proof must contain either an image or a note")),
            DomainError::SubmittedByEmptyError => ErrorReply::message(400, "SubmittedByEmpty", String::from_str("Submitted_by cannot be empty")),
            DomainError::PaymentGatewayError { signature } => ErrorReply::message(400, "ShipmentNotDelivered", cat3("Invalid signature ", signature.as_str(), " ")),
            DomainError::DuplicateProofOfDelivery => ErrorReply::message(409, "DuplicateProof", String::from_str("Proof of delivery already exists")),
            DomainError::DuplicateEntity => ErrorReply::message(409, "DuplicateEntity", String::from_str("Entity already exists")),
            DomainError::PaymentExistsForThisShipment { id } => ErrorReply::message(409, "Duplicate", cat3("Payment with shipment id: ", uuid_text(id).as_str(), ", already exists")),
            DomainError::ForeignKeyViolation => ErrorReply::message(400, "DatabaseConstraintViolation", err.message()),
            DomainError::NullConstraintViolation => ErrorReply::message(400, "DatabaseConstraintViolation", err.message()),
            DomainError::CheckConstraintViolation => ErrorReply::message(400, "DatabaseConstraintViolation", err.message()),
            DomainError::DataTooLong => ErrorReply::message(400, "DatabaseConstraintViolation", err.message()),
            DomainError::InvalidDataFormat => ErrorReply::message(400, "DatabaseConstraintViolation", err.message()),
            DomainError::NumericOverflow => ErrorReply::message(400, "DatabaseConstraintViolation", err.message()),
            DomainError::DeadlockDetected => ErrorReply::message(503, "TransientDatabaseError", String::from_str("Temporary database issue, please retry")),
            DomainError::TransactionTimeout => ErrorReply::message(503, "TransientDatabaseError", String::from_str("Temporary database issue, please retry")),
            DomainError::SerializationFailure => ErrorReply::message(503, "TransientDatabaseError", String::from_str("Temporary database issue, please retry")),
            DomainError::DatabaseError(msg) => ErrorReply::message(500, "DatabaseError", msg),
            _ => ErrorReply::message(500, "InternalError", err.message()),
    }
}

/// Every error that says something was not found is answered with 404, an
/// invalid request with 400 and the list of its problems, a duplicate with 409,
/// and a transient database failure with 503.
pub proof fn lemma_reply_codes(err: DomainError)
    ensures
        (err is ShipmentNotFound || err is ShipmentNotFoundById || err is PaymentNotFound
            || err is PaymentWithShipmentIdNotFound || err is RevenueNotFoundWithDate
            || err is RevenueNotFound) ==> reply_for(err).status == 404,
        err matches DomainError::ValidationError(v) ==> reply_for(err) == (ReplyView {
            status: 400,
            body: BodyView::Messages { error: "ValidationError"@, messages: views(v@) },
        }),
        (err is DuplicateEntity || err is DuplicateProofOfDelivery
            || err is PaymentExistsForThisShipment) ==> reply_for(err).status == 409,
        (err is DeadlockDetected || err is TransactionTimeout || err is SerializationFailure)
            ==> reply_for(err).status == 503,
        400 <= reply_for(err).status < 600,
{
}

/// The value of `res`, or the answer to its error.
pub fn extract_or_bad_request<T>(res: Result<T, DomainError>) -> (r: Result<T, ErrorReply>)
    ensures
        res is Ok ==> r == Ok::<T, ErrorReply>(res->Ok_0),
        res is Err ==> r is Err && r->Err_0@ == reply_for(res->Err_0),
{
    match res {
        Ok(v) => Ok(v),
        Err(e) => Err(map_domain_error(e)),
    }
}

/// The answer to a status that names nothing: 400 with the text `Invalid status`.
pub open spec fn invalid_status_reply() -> ReplyView {
    ReplyView { status: 400, body: BodyView::Text("Invalid status"@) }
}

/// The shipment status named by `input`, or the answer to a bad status.
pub fn parse_status(input: String) -> (r: Result<ShipmentStatus, ErrorReply>)
    ensures
        ShipmentStatus::parse(input@) is Some ==> r == Ok::<ShipmentStatus, ErrorReply>(
            ShipmentStatus::parse(input@).unwrap(),
        ),
        ShipmentStatus::parse(input@) is None ==> r is Err && r->Err_0@ == invalid_status_reply(),
{
    match ShipmentStatus::from_string(input.as_str()) {
        Some(s) => Ok(s),
        None => Err(ErrorReply::text(400, "Invalid status")),
    }
}

/// The complaint status named by `input`, or the answer to a bad status.
pub fn parse_complaint_status(input: String) -> (r: Result<SupportStatus, ErrorReply>)
    ensures
        SupportStatus::parse(input@) is Some ==> r == Ok::<SupportStatus, ErrorReply>(
            SupportStatus::parse(input@).unwrap(),
        ),
        SupportStatus::parse(input@) is None ==> r is Err && r->Err_0@ == invalid_status_reply(),
{
    match SupportStatus::from_string(input.as_str()) {
        Some(s) => Ok(s),
        None => Err(ErrorReply::text(400, "Invalid status")),
    }
}

/// The account status named by `input`, or the answer to a bad status.
pub fn parse_user_status(input: String) -> (r: Result<UserStatus, ErrorReply>)
    ensures
        UserStatus::parse(input@) is Some ==> r == Ok::<UserStatus, ErrorReply>(
            UserStatus::parse(input@).unwrap(),
        ),
        UserStatus::parse(input@) is None ==> r is Err && r->Err_0@ == invalid_status_reply(),
{
    match UserStatus::from_string(input.as_str()) {
        Some(s) => Ok(s),
        None => Err(ErrorReply::text(400, "Invalid status")),
    }
}

/// The signature of a gateway report, read from its `x-signature` header:
/// `header` is `None` where the request has no such header, `Some(None)` where
/// its value is not visible ASCII text, and else the text. A missing or
/// unreadable header is answered with 400 and a plain text that says which.
pub fn webhook_signature(header: Option<Option<String>>) -> (r: Result<String, ErrorReply>)
    ensures
        header is None ==> r is Err && r->Err_0@ == (ReplyView {
            status: 400,
            body: BodyView::Text("Missing signature header"@),
        }),
        header == Some::<Option<String>>(None) ==> r is Err && r->Err_0@ == (ReplyView {
            status: 400,
            body: BodyView::Text("Invalid signature header"@),
        }),
        header matches Some(Some(t)) ==> (r matches Ok(x) && x@ == t@),
{
    match header {
        None => Err(ErrorReply::text(400, "Missing signature header")),
        Some(None) => Err(ErrorReply::text(400, "Invalid signature header")),
        Some(Some(t)) => Ok(t),
    }
}

} // verus!
