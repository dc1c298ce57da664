//! The shapes in which requests arrive and answers leave, and how they turn
//! into the domain's values and back. Identifiers are UUID values, instants
//! microseconds since the Unix epoch, amounts decimal parts.
use vstd::prelude::*;

use crate::address::{Address, AddressView};
use crate::error::DomainError;
use crate::clock::{clock_reading, EARLIEST_INSTANT, LATEST_INSTANT};
use crate::money::Money;
use crate::package::PackageDetails;
use crate::shipment::{is_tracking_number, Shipment};
use crate::shipment_status::ShipmentStatus;
use crate::payment::{GeneratePaymentResponse, Payment, PaymentCommand, PaymentMethod};
use crate::payment_status::PaymentStatus;
use crate::proof_of_delivery::{cleaned_image, opt_view, proof_errors, ProofOfDelivery};
use crate::recipient::{Recipient, RecipientView, recipient_errors};
use crate::address::address_errors;
use crate::shipment_rules::{error_texts, messages_of};
use crate::support::{Comment, Complaint, CommentView, comment_errors, comment_views, complaint_errors};
use crate::support_status::SupportStatus;
use crate::text::{is_blank, trimmed, views};
use crate::user::{User, UserCommand, UserInput};
use crate::user_status::{UserRole, UserStatus};

verus! {

/// A request to open an account.
#[derive(Debug)]
pub struct SignUp {
    pub name: String,
    pub email: String,
    pub password: String,
    pub phone_number: String,
    pub role: UserRole,
}

/// A request to sign in.
#[derive(Debug)]
pub struct LoginDto {
    pub email: String,
    pub password: String,
}

/// The answer to a sign-in: the access token.
#[derive(Debug)]
pub struct LoginResponse {
    pub token: String,
}

/// A request to change the status of an account, by name.
#[derive(Debug)]
pub struct UpdateUserStatusDto {
    pub status: String,
}

/// A request to change parts of an account.
#[derive(Debug)]
pub struct UpdateUserDto {
    pub name: Option<String>,
    pub email: Option<String>,
    pub phone_number: Option<String>,
    pub role: Option<UserRole>,
}

/// How an account is shown; `password` is the stored hash.
#[derive(Debug)]
pub struct SignUpResponse {
    pub id: u128,
    pub name: String,
    pub email: String,
    pub password: String,
    pub status: UserStatus,
    pub role: UserRole,
    pub created_at: i64,
    pub updated_at: Option<i64>,
}

impl SignUp {
    /// The request as a command of the domain, part for part.
    pub fn into_domain(self) -> (r: UserCommand)
        ensures
            r.name@ == self.name@,
            r.email@ == self.email@,
            r.password@ == self.password@,
            r.phone_number@ == self.phone_number@,
            r.role == self.role,
    {
        UserCommand::new(self.name, self.email, self.password, self.phone_number, self.role)
    }
}

impl UpdateUserDto {
    /// The request as an input of the domain, part for part.
    pub fn into_input(self) -> (r: UserInput)
        ensures
            opt_view(r.name) == opt_view(self.name),
            opt_view(r.email) == opt_view(self.email),
            opt_view(r.phone_number) == opt_view(self.phone_number),
            r.role == self.role,
    {
        UserInput {
            name: self.name,
            email: self.email,
            phone_number: self.phone_number,
            role: self.role,
        }
    }
}

impl SignUpResponse {
    /// How the account is shown, part for part.
    pub fn from_domain(user: User) -> (r: SignUpResponse)
        ensures
            r.id == user@.id,
            r.name@ == user@.name,
            r.email@ == user@.email,
            r.password@ == user@.hash_password,
            r.status == user@.status,
            r.role == user@.role,
            r.created_at == user@.created_at,
            r.updated_at == user@.updated_at,
    {
        SignUpResponse {
            id: user.id(),
            name: user.name(),
            email: user.email(),
            password: user.password(),
            status: user.status(),
            role: user.role(),
            created_at: user.created_at(),
            updated_at: user.updated_at(),
        }
    }
}

/// A request to pay for a shipment.
#[derive(Debug)]
pub struct GeneratePaymentDto {
    pub customer_id: u128,
    pub shipment_id: u128,
    pub amount: Money,
    pub payment_method: PaymentMethod,
}

/// How a payment is shown.
#[derive(Debug)]
pub struct PaymentResponseDto {
    pub customer_id: u128,
    pub shipment_id: u128,
    pub amount: Money,
    pub status: PaymentStatus,
    pub paid_at: i64,
    pub payment_method: PaymentMethod,
    pub reference_number: String,
    pub gateway_transaction_id: Option<String>,
    pub failure_reason: Option<String>,
}

/// How a payment that was started is shown.
#[derive(Debug)]
pub struct GeneratePaymentResponseDto {
    pub reference_number: String,
    pub status: PaymentStatus,
    pub authorization_url: String,
}

impl GeneratePaymentDto {
    /// The request as a command of the domain, part for part.
    pub fn into_domain(self) -> (r: PaymentCommand)
        ensures
            r == (PaymentCommand {
                customer_id: self.customer_id,
                shipment_id: self.shipment_id,
                amount: self.amount,
                payment_method: self.payment_method,
            }),
    {
        PaymentCommand::new(self.customer_id, self.shipment_id, self.amount, self.payment_method)
    }
}

impl PaymentResponseDto {
    /// How the payment is shown, part for part.
    pub fn from_domain(payment: Payment) -> (r: PaymentResponseDto)
        ensures
            r.customer_id == payment@.customer_id,
            r.shipment_id == payment@.shipment_id,
            r.amount == payment@.amount,
            r.status == payment@.status,
            r.paid_at == payment@.paid_at,
            r.payment_method == payment@.payment_method,
            r.reference_number@ == payment@.reference_number,
            opt_view(r.gateway_transaction_id) == payment@.gateway_transaction_id,
            opt_view(r.failure_reason) == payment@.failure_reason,
    {
        PaymentResponseDto {
            reference_number: payment.reference_number(),
            customer_id: payment.customer_id(),
            shipment_id: payment.shipment_id(),
            amount: payment.amount(),
            status: payment.status(),
            paid_at: payment.paid_at(),
            payment_method: payment.payment_method(),
            gateway_transaction_id: payment.gateway_transaction_id(),
            failure_reason: payment.failure_reason(),
        }
    }
}

impl GeneratePaymentResponseDto {
    /// The reference and status of the payment and the address that completes it.
    pub fn from_response(response: GeneratePaymentResponse) -> (r: GeneratePaymentResponseDto)
        ensures
            r.reference_number@ == response.payment@.reference_number,
            r.status == response.payment@.status,
            r.authorization_url@ == response.authorization_url@,
    {
        GeneratePaymentResponseDto {
            reference_number: response.payment.reference_number(),
            status: response.payment.status(),
            authorization_url: response.authorization_url,
        }
    }
}

/// A complaint as it is lodged.
#[derive(Debug)]
pub struct ComplaintDto {
    pub user_id: u128,
    pub shipment_id: u128,
    pub subject: String,
    pub description: String,
}

/// A request to change the status of a complaint, by name.
#[derive(Debug)]
pub struct UpdateComplaintStatusDto {
    pub status: String,
}

/// A comment as it is made.
#[derive(Debug)]
pub struct CommentDto {
    pub author_id: u128,
    pub message: String,
}

/// How a comment is shown.
#[derive(Debug)]
pub struct CommentResponseDto {
    pub id: u128,
    pub author_id: u128,
    pub message: String,
    pub created_at: i64,
}

/// How a complaint is shown.
#[derive(Debug)]
pub struct ComplaintResponse {
    pub id: u128,
    pub user_id: u128,
    pub shipment_id: u128,
    pub subject: String,
    pub description: String,
    pub status: SupportStatus,
    pub created_at: i64,
    pub resolved_at: Option<i64>,
    pub comment: Vec<CommentResponseDto>,
}

/// What a shown comment holds.
pub open spec fn comment_response_view(c: CommentResponseDto) -> CommentView {
    CommentView { id: c.id, author_id: c.author_id, message: c.message@, created_at: c.created_at }
}

impl ComplaintDto {
    /// The complaint that the request lodges (see `Complaint::send_complaint`).
    pub fn to_domain(self) -> (r: Result<Complaint, DomainError>)
        ensures
            ({
                let errs = complaint_errors(
                    self.user_id,
                    self.shipment_id,
                    self.subject@,
                    self.description@,
                );
                &&& errs.len() > 0 ==> r is Err && (r->Err_0 matches DomainError::ValidationError(
                    v,
                ) && views(v@) == errs)
                &&& errs.len() == 0 ==> r is Ok && r->Ok_0@.user_id == self.user_id
                    && r->Ok_0@.shipment_id == self.shipment_id && r->Ok_0@.subject == self.subject@
                    && r->Ok_0@.description == self.description@ && r->Ok_0@.status
                    == SupportStatus::Open && clock_reading(r->Ok_0@.created_at as int)
            }),
    {
        Complaint::send_complaint(self.user_id, self.shipment_id, self.subject, self.description)
    }
}

impl CommentDto {
    /// The comment that the request makes (see `Comment::make_comment`).
    pub fn to_domain(self) -> (r: Result<Comment, DomainError>)
        ensures
            ({
                let errs = comment_errors(self.author_id, self.message@);
                &&& errs.len() > 0 ==> r is Err && (r->Err_0 matches DomainError::ValidationError(
                    v,
                ) && views(v@) == errs)
                &&& errs.len() == 0 ==> r is Ok && r->Ok_0@.author_id == self.author_id
                    && r->Ok_0@.message == self.message@ && clock_reading(
                    r->Ok_0@.created_at as int,
                )
            }),
    {
        Comment::make_comment(self.author_id, self.message)
    }
}

impl CommentResponseDto {
    /// How the comment is shown, part for part.
    pub fn from_comment(comment: Comment) -> (r: CommentResponseDto)
        ensures
            comment_response_view(r) == comment@,
    {
        CommentResponseDto {
            id: comment.id(),
            author_id: comment.author_id(),
            message: comment.message(),
            created_at: comment.created_at(),
        }
    }
}

impl ComplaintResponse {
    /// How the complaint is shown, part for part, its comments in order.
    pub fn new(complaint: Complaint) -> (r: ComplaintResponse)
        ensures
            r.id == complaint@.id,
            r.user_id == complaint@.user_id,
            r.shipment_id == complaint@.shipment_id,
            r.subject@ == complaint@.subject,
            r.description@ == complaint@.description,
            r.status == complaint@.status,
            r.created_at == complaint@.created_at,
            r.resolved_at == complaint@.resolved_at,
            r.comment@.map_values(|c: CommentResponseDto| comment_response_view(c))
                == complaint@.comment,
    {
        let comments = complaint.comment();
        let mut shown: Vec<CommentResponseDto> = Vec::new();
        let n = comments.len();
        let mut i: usize = 0;
        while i < n
            invariant
                n == comments@.len(),
                0 <= i <= n,
                comment_views(comments@) == complaint@.comment,
                shown@.map_values(|c: CommentResponseDto| comment_response_view(c)) =~= comment_views(
                    comments@,
                ).take(i as int),
            decreases n - i,
        {
            let c = CommentResponseDto::from_comment(comments[i].clone());
            let ghost before = shown@;
            shown.push(c);
            assert(shown@.map_values(|c: CommentResponseDto| comment_response_view(c)) =~= before.map_values(
                |c: CommentResponseDto| comment_response_view(c),
            ).push(comment_response_view(c)));
            assert(comment_views(comments@).take(i + 1) =~= comment_views(comments@).take(
                i as int,
            ).push(comments@[i as int]@));
            i = i + 1;
        }
        assert(comment_views(comments@).take(n as int) =~= comment_views(comments@));
        ComplaintResponse {
            id: complaint.id(),
            user_id: complaint.user_id(),
            shipment_id: complaint.shipment_id(),
            subject: complaint.subject(),
            description: complaint.description(),
            status: complaint.status(),
            created_at: complaint.created_at(),
            resolved_at: complaint.resolved_at(),
            comment: shown,
        }
    }
}

/// A request to change the status of a shipment, by name.
#[derive(Debug)]
pub struct UpdateStatusDto {
    pub status: String,
}

/// How an address is shown: country, city and state.
#[derive(Debug)]
pub struct AddressDto {
    pub country: String,
    pub city: String,
    pub state: String,
}

/// How a recipient is shown.
#[derive(Debug)]
pub struct RecipientDto {
    pub name: String,
    pub contact: String,
    pub address: AddressDto,
}

/// How a proof of delivery is shown.
#[derive(Debug)]
pub struct ProofOfDeliveryResponseDto {
    pub image: Option<String>,
    pub note: String,
    pub submitted_by: String,
}

/// A proof of delivery as it is handed in; a time given with it is not used.
#[derive(Debug)]
pub struct ProofOfDeliveryDto {
    pub image: Option<String>,
    pub note: String,
    pub submitted_by: String,
    pub submitted_at: Option<i64>,
}

/// A page of a listing, counted from 1, and its size.
#[derive(Debug)]
pub struct PaginationQuery {
    pub page: i64,
    pub page_size: i64,
}

impl RecipientDto {
    /// How the recipient is shown: name, contact, and country, city and state
    /// of the address.
    pub fn from_recipient(recipient: &Recipient) -> (r: RecipientDto)
        ensures
            r.name@ == recipient@.name,
            r.contact@ == recipient@.contact,
            r.address.country@ == recipient@.address.country,
            r.address.city@ == recipient@.address.city,
            r.address.state@ == recipient@.address.state,
    {
        let a = recipient.address();
        RecipientDto {
            name: String::from_str(recipient.name()),
            contact: String::from_str(recipient.contact()),
            address: AddressDto {
                country: String::from_str(a.country()),
                city: String::from_str(a.city()),
                state: String::from_str(a.state()),
            },
        }
    }
}

impl ProofOfDeliveryResponseDto {
    /// How the proof is shown: image, note and submitter.
    pub fn from_proof(p: ProofOfDelivery) -> (r: ProofOfDeliveryResponseDto)
        ensures
            opt_view(r.image) == p@.image,
            r.note@ == p@.note,
            r.submitted_by@ == p@.submitted_by,
    {
        ProofOfDeliveryResponseDto {
            image: p.image(),
            note: String::from_str(p.note()),
            submitted_by: String::from_str(p.submitted_by()),
        }
    }
}

impl ProofOfDeliveryDto {
    /// The proof that the request hands in (see `ProofOfDelivery::create`); its
    /// problems become a validation error that lists their texts.
    pub fn to_domain(self) -> (r: Result<ProofOfDelivery, DomainError>)
        ensures
            ({
                let errs = proof_errors(opt_view(self.image), self.note@, self.submitted_by@);
                &&& errs.len() == 0 ==> r is Ok && r->Ok_0@.image == cleaned_image(
                    opt_view(self.image),
                ) && r->Ok_0@.note == trimmed(self.note@) && r->Ok_0@.submitted_by == trimmed(
                    self.submitted_by@,
                ) && clock_reading(r->Ok_0@.submitted_at as int)
                &&& errs.len() > 0 ==> r is Err && (r->Err_0 matches DomainError::ValidationError(
                    v,
                ) && views(v@) == error_texts(errs))
            }),
    {
        match ProofOfDelivery::create(self.image, self.note, self.submitted_by) {
            Ok(p) => Ok(p),
            Err(errs) => Err(DomainError::ValidationError(messages_of(&errs))),
        }
    }
}

/// The page, at least 1.
pub open spec fn page_of(q: PaginationQuery) -> int {
    if q.page < 1 {
        1
    } else {
        q.page as int
    }
}

/// The page size, between 1 and 100.
pub open spec fn page_size_of(q: PaginationQuery) -> int {
    if q.page_size < 1 {
        1
    } else if q.page_size > 100 {
        100
    } else {
        q.page_size as int
    }
}

impl PaginationQuery {
    /// The offset and the limit of the page asked for: the page is raised to 1
    /// at least, the size held between 1 and 100, and the offset skips the
    /// pages before. `None` where the offset overflows an `i64`, the case in
    /// which the multiplication panics.
    pub fn window(&self) -> (r: Option<(i64, i64)>)
        ensures
            (page_of(*self) - 1) * page_size_of(*self) <= i64::MAX <==> r is Some,
            r is Some ==> (r matches Some((offset, limit)) && offset == (page_of(*self) - 1)
                * page_size_of(*self) && limit == page_size_of(*self)),
    {
        let page: i64 = if self.page < 1 {
            1
        } else {
            self.page
        };
        let size: i64 = if self.page_size < 1 {
            1
        } else if self.page_size > 100 {
            100
        } else {
            self.page_size
        };
        assert(0 <= (page - 1) * size) by (nonlinear_arith)
            requires
                page >= 1,
                size >= 1,
        ;
        match (page - 1).checked_mul(size) {
            Some(offset) => Some((offset, size)),
            None => None,
        }
    }
}

/// A new shipment from the parts of a request to create one, the parcel's
/// measures, weight and contents having been checked by the caller into
/// `parcel`. The checks come in order: the address, then the parcel, then the
/// recipient's name and contact, then the sender (see `Shipment::create`); the
/// first that fails gives a validation error with its problems.
pub fn shipment_from_request(
    sender_name: String,
    recipient_name: String,
    contact: String,
    street: String,
    city: String,
    state: String,
    country: String,
    postal_code: String,
    parcel: Result<PackageDetails, Vec<String>>,
) -> (r: Result<Shipment, DomainError>)
    ensures
        ({
            let aerrs = address_errors(street@, city@, state@, country@, postal_code@);
            let rerrs = recipient_errors(recipient_name@, contact@);
            &&& aerrs.len() > 0 ==> r is Err && (r->Err_0 matches DomainError::ValidationError(v)
                && views(v@) == aerrs)
            &&& aerrs.len() == 0 && parcel is Err ==> r is Err && (
            r->Err_0 matches DomainError::ValidationError(v) && views(v@) == views(
                parcel->Err_0@,
            ))
            &&& aerrs.len() == 0 && parcel is Ok && rerrs.len() > 0 ==> r is Err && (
            r->Err_0 matches DomainError::ValidationError(v) && views(v@) == rerrs)
            &&& aerrs.len() == 0 && parcel is Ok && rerrs.len() == 0 && is_blank(sender_name@)
                ==> r is Err && (r->Err_0 matches DomainError::ValidationError(v) && views(v@)
                == seq!["Sender name must not be empty"@])
            &&& aerrs.len() == 0 && parcel is Ok && rerrs.len() == 0 && !is_blank(sender_name@)
                ==> r is Ok && ({
                let sh = r->Ok_0@;
                &&& sh.id != 0
                &&& sh.sender_name == sender_name@
                &&& sh.recipient == (RecipientView {
                    name: recipient_name@,
                    contact: contact@,
                    address: AddressView {
                        street: street@,
                        city: city@,
                        state: state@,
                        country: country@,
                        postal_code: postal_code@,
                    },
                })
                &&& sh.package_details == parcel->Ok_0@
                &&& is_tracking_number(sh.tracking_number)
                &&& sh.status == ShipmentStatus::Created
                &&& sh.created_at == sh.updated_at
                &&& EARLIEST_INSTANT <= sh.created_at <= LATEST_INSTANT
                &&& sh.proof_of_delivery.len() == 0
                &&& sh.service_provider_id is None
                &&& clock_reading(sh.created_at as int)
            })
        }),
{
    let address = match Address::create(street, city, state, country, postal_code) {
        Ok(a) => a,
        Err(errs) => {
            return Err(DomainError::ValidationError(errs));
        },
    };
    let package = match parcel {
        Ok(p) => p,
        Err(errs) => {
            return Err(DomainError::ValidationError(errs));
        },
    };
    let recipient = match Recipient::create(recipient_name, contact, address) {
        Ok(x) => x,
        Err(errs) => {
            return Err(DomainError::ValidationError(errs));
        },
    };
    Shipment::create(sender_name, recipient, package, None)
}

/// Three parts that an edit gives together: all of them, or none of them.
/// Where only some are given, the edit is refused with the one problem
/// `incomplete`.
pub fn all_or_none<A, B, C>(a: Option<A>, b: Option<B>, c: Option<C>, incomplete: &str) -> (r:
    Result<Option<(A, B, C)>, DomainError>)
    ensures
        a is Some && b is Some && c is Some ==> r == Ok::<Option<(A, B, C)>, DomainError>(
            Some((a->0, b->0, c->0)),
        ),
        a is None && b is None && c is None ==> r == Ok::<Option<(A, B, C)>, DomainError>(None),
        !(a is Some && b is Some && c is Some) && !(a is None && b is None && c is None) ==> r is Err
            && (r->Err_0 matches DomainError::ValidationError(v) && views(v@) == seq![incomplete@]),
{
    match (a, b, c) {
        (Some(x), Some(y), Some(z)) => Ok(Some((x, y, z))),
        (None, None, None) => Ok(None),
        _ => {
            let v = vec![String::from_str(incomplete)];
            assert(views(v@) =~= seq![incomplete@]);
            Err(DomainError::ValidationError(v))
        },
    }
}

/// The measures that an edit gives: length, width and height together, or
/// none of them.
pub fn dimension_parts<L>(length: Option<L>, width: Option<L>, height: Option<L>) -> (r: Result<
    Option<(L, L, L)>,
    DomainError,
>)
    ensures
        length is Some && width is Some && height is Some ==> r == Ok::<
            Option<(L, L, L)>,
            DomainError,
        >(Some((length->0, width->0, height->0))),
        length is None && width is None && height is None ==> r == Ok::<
            Option<(L, L, L)>,
            DomainError,
        >(None),
        !(length is Some && width is Some && height is Some) && !(length is None && width is None
            && height is None) ==> r is Err && (r->Err_0 matches DomainError::ValidationError(v)
            && views(v@) == seq!["Incomplete dimensions provided"@]),
{
    all_or_none(length, width, height, "Incomplete dimensions provided")
}

/// The parcel that an edit gives: weight, contents and measures together, or
/// none of them.
pub fn package_parts<W, D>(weight: Option<W>, contents: Option<String>, dimensions: Option<D>) -> (r:
    Result<Option<(W, String, D)>, DomainError>)
    ensures
        weight is Some && contents is Some && dimensions is Some ==> r == Ok::<
            Option<(W, String, D)>,
            DomainError,
        >(Some((weight->0, contents->0, dimensions->0))),
        weight is None && contents is None && dimensions is None ==> r == Ok::<
            Option<(W, String, D)>,
            DomainError,
        >(None),
        !(weight is Some && contents is Some && dimensions is Some) && !(weight is None
            && contents is None && dimensions is None) ==> r is Err && (
        r->Err_0 matches DomainError::ValidationError(v) && views(v@) == seq![
            "Incomplete package details provided"@,
        ]),
{
    all_or_none(weight, contents, dimensions, "Incomplete package details provided")
}

/// The recipient that an edit gives, where it gives every part of it: name,
/// contact, street, city, state, country and postal code; none where a part is
/// missing. An address or recipient with blank parts is refused with the list
/// of its problems.
pub fn recipient_from_parts(
    name: Option<String>,
    contact: Option<String>,
    street: Option<String>,
    city: Option<String>,
    state: Option<String>,
    country: Option<String>,
    postal_code: Option<String>,
) -> (r: Result<Option<Recipient>, DomainError>)
    ensures
        !(name is Some && contact is Some && street is Some && city is Some && state is Some
            && country is Some && postal_code is Some) ==> r == Ok::<Option<Recipient>, DomainError>(
            None,
        ),
        name is Some && contact is Some && street is Some && city is Some && state is Some
            && country is Some && postal_code is Some ==> ({
            let aerrs = address_errors(
                street->0@,
                city->0@,
                state->0@,
                country->0@,
                postal_code->0@,
            );
            let rerrs = recipient_errors(name->0@, contact->0@);
            &&& aerrs.len() > 0 ==> r is Err && (r->Err_0 matches DomainError::ValidationError(v)
                && views(v@) == aerrs)
            &&& aerrs.len() == 0 && rerrs.len() > 0 ==> r is Err && (
            r->Err_0 matches DomainError::ValidationError(v) && views(v@) == rerrs)
            &&& aerrs.len() == 0 && rerrs.len() == 0 ==> (r matches Ok(Some(x)) && x@ == (
            RecipientView {
                name: name->0@,
                contact: contact->0@,
                address: AddressView {
                    street: street->0@,
                    city: city->0@,
                    state: state->0@,
                    country: country->0@,
                    postal_code: postal_code->0@,
                },
            }))
        }),
{
    match (name, contact, street, city, state, country, postal_code) {
        (Some(n), Some(c), Some(st), Some(ci), Some(sa), Some(co), Some(po)) => {
            let address = match Address::create(st, ci, sa, co, po) {
                Ok(a) => a,
                Err(errs) => {
                    return Err(DomainError::ValidationError(errs));
                },
            };
            match Recipient::create(n, c, address) {
                Ok(rc) => Ok(Some(rc)),
                Err(errs) => Err(DomainError::ValidationError(errs)),
            }
        },
        _ => Ok(None),
    }
}

/// Why the stored parts of a recipient do not make one: the problems of the
/// address, or else those of the name and contact.
#[derive(Debug)]
pub enum StoredRecipientError {
    InvalidAddress(Vec<String>),
    InvalidRecipient(Vec<String>),
}

/// Rebuilds stored recipients. What was stored passed the checks of
/// `Address::create` and `Recipient::create`, so the parts of a row are
/// required to pass them again; on other parts the rebuild would panic.
#[derive(Debug)]
pub struct RecipientMapper;

impl RecipientMapper {
    /// The recipient with these stored parts.
    pub fn from_row(
        name: String,
        contact: String,
        street: String,
        city: String,
        state: String,
        country: String,
        postal_code: String,
    ) -> (r: Recipient)
        requires
            address_errors(street@, city@, state@, country@, postal_code@).len() == 0,
            recipient_errors(name@, contact@).len() == 0,
        ensures
            r@ == (RecipientView {
                name: name@,
                contact: contact@,
                address: AddressView {
                    street: street@,
                    city: city@,
                    state: state@,
                    country: country@,
                    postal_code: postal_code@,
                },
            }),
    {
        let address = Address::create(street, city, state, country, postal_code).unwrap();
        Recipient::create(name, contact, address).unwrap()
    }

    /// The recipient with these stored parts, checked as a new one is: the
    /// address first, then the name and contact.
    pub fn read_row(
        name: String,
        contact: String,
        street: String,
        city: String,
        state: String,
        country: String,
        postal_code: String,
    ) -> (r: Result<Recipient, StoredRecipientError>)
        ensures
            ({
                let aerrs = address_errors(street@, city@, state@, country@, postal_code@);
                let rerrs = recipient_errors(name@, contact@);
                &&& aerrs.len() > 0 ==> (r matches Err(StoredRecipientError::InvalidAddress(v))
                    && views(v@) == aerrs)
                &&& aerrs.len() == 0 && rerrs.len() > 0 ==> (r matches Err(
                    StoredRecipientError::InvalidRecipient(v),
                ) && views(v@) == rerrs)
                &&& aerrs.len() == 0 && rerrs.len() == 0 ==> (r matches Ok(x) && x@ == (
                RecipientView {
                    name: name@,
                    contact: contact@,
                    address: AddressView {
                        street: street@,
                        city: city@,
                        state: state@,
                        country: country@,
                        postal_code: postal_code@,
                    },
                }))
            }),
    {
        let address = match Address::create(street, city, state, country, postal_code) {
            Ok(a) => a,
            Err(errs) => {
                return Err(StoredRecipientError::InvalidAddress(errs));
            },
        };
        match Recipient::create(name, contact, address) {
            Ok(x) => Ok(x),
            Err(errs) => Err(StoredRecipientError::InvalidRecipient(errs)),
        }
    }
}

} // verus!
