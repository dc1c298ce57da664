use chrono::Datelike;
use doodoo_logistics::dto::{
    recipient_from_parts, ComplaintResponse, PaginationQuery, ProofOfDeliveryDto, RecipientDto, RecipientMapper, SignUp,
    SignUpResponse, StoredRecipientError, UpdateUserDto,
};
use doodoo_logistics::error::{DomainError, RepositoryError};
use doodoo_logistics::gateway::{MockPaymentGateway, PaymentWebhookEvent};
use doodoo_logistics::ids::fresh_id;
use doodoo_logistics::jwt::JwtService;
use doodoo_logistics::money::Money;
use doodoo_logistics::payment::{Payment, PaymentMethod};
use doodoo_logistics::payment_rules::{
    apply_webhook, check_payment_allowed, payment_by_reference, revenue_for_date, revenue_for_month, status_from_report,
    WebhookOutcome,
};
use doodoo_logistics::payment_status::PaymentStatus;
use doodoo_logistics::reply::{extract_or_bad_request, map_domain_error, parse_status, webhook_signature, ReplyBody};
use doodoo_logistics::routes::{configure_routes, Endpoint, Method};
use doodoo_logistics::rows::{PaymentRow, UserRow};
use doodoo_logistics::shipment_rules::{check_service_provider, shipment_deletion, status_change};
use doodoo_logistics::shipment_status::ShipmentStatus;
use doodoo_logistics::support::Complaint;
use doodoo_logistics::support_rules::complaint_status_change;
use doodoo_logistics::support_status::SupportStatus;
use doodoo_logistics::text::{join, trim, u64_text};
use doodoo_logistics::user::{User, UserCommand};
use doodoo_logistics::user_rules::{authenticate, merged_input, new_account, user_deletion};
use doodoo_logistics::user_status::{UserRole, UserStatus};

fn s(x: &str) -> String {
    x.to_string()
}

const ID: u128 = 0x67e5504410b1426f9247bb680e5fe0c8;

fn amount_problem(amount: Money) -> String {
    match Payment::generate_payment(1, 2, amount, PaymentMethod::Card) {
        Err(DomainError::ValidationError(v)) => {
            assert_eq!(v.len(), 1);
            v[0].clone()
        }
        other => panic!("unexpected {:?}", other),
    }
}

fn pending_payment() -> Payment {
    Payment::reconstitute(1, 2, Money::new(500, 2), PaymentStatus::Pending, 0, PaymentMethod::Card, s("RF-1"), None, None)
}

fn event(status: &str, tx: Option<&str>) -> PaymentWebhookEvent {
    PaymentWebhookEvent::new(s("RF-1"), s(status), tx.map(s))
}

#[test]
fn uuid_and_number_texts() {
    assert_eq!(
        DomainError::ComplaintNotFound { id: ID }.message(),
        "Complaint with id: 67e55044-10b1-426f-9247-bb680e5fe0c8 not found"
    );
    assert_eq!(
        DomainError::UserNotFoundWithId { id: 0 }.message(),
        "User with id: 00000000-0000-0000-0000-000000000000 not found"
    );
    assert_ne!(fresh_id(), 0);
    let id = fresh_id();
    assert_eq!((id >> 76) & 0xF, 4);
    assert_eq!((id >> 62) & 0x3, 2);
    assert_ne!(fresh_id(), id);
    assert_eq!("Delivered".parse::<ShipmentStatus>(), Ok(ShipmentStatus::Delivered));
    assert_eq!("Lost".parse::<ShipmentStatus>(), Err(s("Invalid status: Lost")));
    assert_eq!("Boss".parse::<UserRole>(), Err(s("Invalid role: Boss")));
    assert_eq!(u64_text(0), "0");
    assert_eq!(u64_text(1234567890), "1234567890");
    assert_eq!(amount_problem(Money::new(-1999, 2)), "Amount must be a positive value: -19.99");
    assert_eq!(trim("\u{2003} a b \u{85}"), "a b");
    assert_eq!(join(&vec![s("a"), s("b"), s("c")], ", "), "a, b, c");
    assert_eq!(join(&vec![], ", "), "");
}

#[test]
fn error_messages() {
    let day = chrono::NaiveDate::from_ymd_opt(2024, 1, 15).unwrap();
    let days = day.num_days_from_ce();
    assert_eq!(DomainError::RevenueNotFoundWithDate { date: days }.message(), "Revenue 2024-01-15 not found");
    assert_eq!(DomainError::RevenueNotFound { month: 12 }.message(), "Revenue 12 not found");
    assert_eq!(
        DomainError::ShipmentNotFoundById { id: ID }.message(),
        "Shipment with id: 67e55044-10b1-426f-9247-bb680e5fe0c8 not found"
    );
    assert_eq!(
        DomainError::InvalidShipmentStatusTransition { from: ShipmentStatus::Delivered, to: ShipmentStatus::Created }
            .message(),
        "Invalid shipment status transition from Delivered to Created"
    );
    assert_eq!(
        DomainError::ValidationError(vec![s("a"), s("b")]).message(),
        "Validation failed: a, b"
    );
    assert_eq!(DomainError::PaymentGatewayError { signature: s("x") }.message(), "Invalid signature x ");
    assert_eq!(DomainError::DatabaseError(s("boom")).message(), "Database error: boom");
    assert_eq!(DomainError::Internal(s("boom")).message(), "Internal system error: boom");
    assert_eq!(DomainError::SubmittedByEmptyError.message(), "Unable to fecth the proof's sender details");
}

#[test]
fn storage_errors_become_domain_errors() {
    assert!(matches!(DomainError::from(RepositoryError::DeadlockDetected), DomainError::DeadlockDetected));
    assert!(matches!(DomainError::from(RepositoryError::DuplicateEntity), DomainError::DuplicateEntity));
    match DomainError::from(RepositoryError::DatabaseError(s("x"))) {
        DomainError::DatabaseError(m) => assert_eq!(m, "x"),
        other => panic!("unexpected {:?}", other),
    }
}

fn message_reply(e: DomainError) -> (u16, String, String) {
    let r = map_domain_error(e);
    match r.body {
        ReplyBody::Message { error, message } => (r.status, error, message),
        other => panic!("unexpected {:?}", other),
    }
}

#[test]
fn error_replies() {
    assert_eq!(
        message_reply(DomainError::ShipmentNotFound { tracking_number: s("TRK-1") }),
        (404, s("ShipmentNotFound"), s("Shipment TRK-1 not found"))
    );
    assert_eq!(
        message_reply(DomainError::ShipmentNotFoundById { id: ID }),
        (404, s("ShipmentNotFound"), s("Shipment with id 67e55044-10b1-426f-9247-bb680e5fe0c8 not found"))
    );
    assert_eq!(
        message_reply(DomainError::InvalidShipmentStatusTransition {
            from: ShipmentStatus::Created,
            to: ShipmentStatus::Delivered
        }),
        (400, s("InvalidShipmentStatusTransition"), s("Cannot move from Created to Delivered"))
    );
    assert_eq!(
        message_reply(DomainError::PaymentExistsForThisShipment { id: ID }),
        (409, s("Duplicate"), s("Payment with shipment id: 67e55044-10b1-426f-9247-bb680e5fe0c8, already exists"))
    );
    assert_eq!(
        message_reply(DomainError::ForeignKeyViolation),
        (400, s("DatabaseConstraintViolation"), s("Foreign key violation"))
    );
    assert_eq!(
        message_reply(DomainError::TransactionTimeout),
        (503, s("TransientDatabaseError"), s("Temporary database issue, please retry"))
    );
    assert_eq!(message_reply(DomainError::DatabaseError(s("x"))), (500, s("DatabaseError"), s("x")));
    assert_eq!(
        message_reply(DomainError::InvalidCredentials),
        (500, s("InternalError"), s("Invalid credentials"))
    );
    assert_eq!(
        message_reply(DomainError::DuplicateProofOfDelivery),
        (409, s("DuplicateProof"), s("Proof of delivery already exists"))
    );
    let r = map_domain_error(DomainError::ValidationError(vec![s("a")]));
    assert_eq!(r.status, 400);
    match r.body {
        ReplyBody::Messages { error, messages } => {
            assert_eq!(error, "ValidationError");
            assert_eq!(messages, vec![s("a")]);
        }
        other => panic!("unexpected {:?}", other),
    }
    let bad = parse_status(s("Lost")).unwrap_err();
    assert_eq!(bad.status, 400);
    assert!(matches!(bad.body, ReplyBody::Text(ref t) if t == "Invalid status"));
    assert_eq!(parse_status(s("Assigned")).unwrap(), ShipmentStatus::Assigned);
    assert_eq!(extract_or_bad_request::<u8>(Ok(3)).unwrap(), 3);
    assert_eq!(extract_or_bad_request::<u8>(Err(DomainError::ShipmentNotDelivered)).unwrap_err().status, 400);
}

#[test]
fn webhook_success_is_applied_once() {
    assert_eq!(status_from_report("success"), PaymentStatus::Successful);
    assert_eq!(status_from_report("failed"), PaymentStatus::Failed);
    assert_eq!(status_from_report("SUCCESS"), PaymentStatus::Failed);
    let ev = event("success", Some("tx-9"));
    let updated = match apply_webhook(pending_payment(), &ev).unwrap() {
        WebhookOutcome::Updated(p) => p,
        other => panic!("unexpected {:?}", other),
    };
    assert_eq!(updated.status(), PaymentStatus::Successful);
    assert_eq!(updated.gateway_transaction_id(), Some(s("tx-9")));
    assert_eq!(updated.reference_number(), "RF-1");
    match apply_webhook(updated, &ev).unwrap() {
        WebhookOutcome::Unchanged(p) => assert_eq!(p.status(), PaymentStatus::Successful),
        other => panic!("unexpected {:?}", other),
    }
}

#[test]
fn webhook_refusals() {
    match apply_webhook(pending_payment(), &event("success", None)) {
        Err(DomainError::PaymentGatewayError { signature }) => assert_eq!(signature, "missing transaction id"),
        other => panic!("unexpected {:?}", other),
    }
    let paid = pending_payment().update_status(PaymentStatus::Successful, Some(s("tx-1"))).unwrap();
    match apply_webhook(paid.clone(), &event("failed", None)) {
        Err(DomainError::InvalidPaymentStatusTransition { from, to }) => {
            assert_eq!(from, PaymentStatus::Successful);
            assert_eq!(to, PaymentStatus::Failed);
        }
        other => panic!("unexpected {:?}", other),
    }
    assert!(apply_webhook(paid, &event("success", Some("tx-2"))).is_err());
    let failed = match apply_webhook(pending_payment(), &event("declined", None)).unwrap() {
        WebhookOutcome::Updated(p) => p,
        other => panic!("unexpected {:?}", other),
    };
    assert_eq!(failed.status(), PaymentStatus::Failed);
    assert!(matches!(apply_webhook(failed, &event("declined", None)), Ok(WebhookOutcome::Unchanged(_))));
}

#[test]
fn payment_service_rules() {
    assert!(matches!(check_payment_allowed(false, true, 5), Err(DomainError::ShipmentNotFoundById { id: 5 })));
    assert!(matches!(check_payment_allowed(true, true, 5), Err(DomainError::PaymentExistsForThisShipment { id: 5 })));
    assert!(check_payment_allowed(true, false, 5).is_ok());
    match payment_by_reference(None, "RF-X") {
        Err(DomainError::PaymentNotFound { reference }) => assert_eq!(reference, "RF-X"),
        other => panic!("unexpected {:?}", other),
    }
    assert!(matches!(revenue_for_date(None, 7), Err(DomainError::RevenueNotFoundWithDate { date: 7 })));
    assert!(matches!(revenue_for_month(None, 3), Err(DomainError::RevenueNotFound { month: 3 })));
    assert_eq!(revenue_for_month(Some(Money::new(1, 0)), 3).unwrap(), Money::new(1, 0));
    let gw = MockPaymentGateway::new();
    let p = pending_payment();
    let resp = gw.initiate_payment(&p).unwrap();
    assert_eq!(resp.reference, "RF-1");
    assert_eq!(resp.authorization_url, "https://mock-payments.local/pay/RF-1");
    assert!(gw.verify_webhook(&event("x", None), "sig").is_ok());
}

#[test]
fn shipment_service_rules() {
    assert!(matches!(shipment_deletion(0, 4), Err(DomainError::ShipmentNotFoundById { id: 4 })));
    assert!(shipment_deletion(1, 4).is_ok());
    match status_change(None, "TRK-9", ShipmentStatus::Assigned) {
        Err(DomainError::ShipmentNotFound { tracking_number }) => assert_eq!(tracking_number, "TRK-9"),
        other => panic!("unexpected {:?}", other),
    }
    let provider = User::reconstitute(8, s("P"), s("p@x"), s("h"), s("1"), UserRole::ServiceProvider, UserStatus::Active, 0, None);
    let sender = User::reconstitute(9, s("S"), s("s@x"), s("h"), s("1"), UserRole::Sender, UserStatus::Active, 0, None);
    assert!(check_service_provider(&Some(provider), 8).is_ok());
    assert!(matches!(check_service_provider(&Some(sender), 9), Err(DomainError::UserIsNotServiceProvider { provider_id: 9 })));
    assert!(matches!(check_service_provider(&None, 9), Err(DomainError::UserNotFoundWithId { id: 9 })));
}

#[test]
fn complaint_service_rules() {
    assert!(matches!(complaint_status_change(None, 3, &SupportStatus::Resolved), Err(DomainError::ComplaintNotFound { id: 3 })));
    let c = Complaint::send_complaint(1, 2, s("a"), s("b")).unwrap();
    let id = c.id();
    let r = complaint_status_change(Some(c), id, &SupportStatus::InProgress).unwrap();
    assert_eq!(r.status(), SupportStatus::InProgress);
    let shown = ComplaintResponse::new(r);
    assert_eq!(shown.status, SupportStatus::InProgress);
    assert_eq!(shown.subject, "a");
}

#[test]
fn user_service_rules() {
    assert!(matches!(user_deletion(0, 2), Err(DomainError::UserNotFoundWithId { id: 2 })));
    let cmd = UserCommand::new(s("Ann"), s("ann@x.io"), s("secret-pass"), s("1"), UserRole::Recipient);
    match new_account(&cmd, true, Ok(s("h"))) {
        Err(DomainError::UserWithEmailAlreadyExist { email }) => assert_eq!(email, "ann@x.io"),
        other => panic!("unexpected {:?}", other),
    }
    let hashed = User::hash_password_value(cmd.password());
    let user = new_account(&cmd, false, hashed).unwrap();
    assert_eq!(user.email(), "ann@x.io");
    assert_eq!(user.hash_password().len(), 60);
    let logged = authenticate(Some(user.clone()), s("ann@x.io"), "secret-pass").unwrap();
    assert_eq!(logged.id(), user.id());
    assert!(matches!(authenticate(Some(user.clone()), s("ann@x.io"), "nope"), Err(DomainError::InvalidCredentials)));
    match authenticate(None, s("who@x.io"), "pw") {
        Err(DomainError::UserNotFound { email }) => assert_eq!(email, "who@x.io"),
        other => panic!("unexpected {:?}", other),
    }
    let suspended = user.update_status(UserStatus::Suspended).unwrap();
    assert!(matches!(
        authenticate(Some(suspended), s("ann@x.io"), "secret-pass"),
        Err(DomainError::UserStatusIsNotActive { status: UserStatus::Suspended })
    ));
    let broken = User::reconstitute(1, s("B"), s("b@x"), s("short"), s("1"), UserRole::Sender, UserStatus::Active, 0, None);
    match authenticate(Some(broken), s("b@x"), "pw") {
        Err(DomainError::Internal(text)) => assert!(!text.is_empty()),
        other => panic!("unexpected {:?}", other),
    }
    let edit = UpdateUserDto { name: None, email: Some(s("new@x.io")), phone_number: None, role: None }.into_input();
    let merged = merged_input(&user, edit);
    assert_eq!(merged.email(), "new@x.io");
    assert_eq!(merged.name(), "Ann");
    assert!(merged.updated_at().is_some());
}

#[test]
fn token_claims() {
    let jwt = JwtService::new(s("secret"), 60);
    let user = User::reconstitute(ID, s("Ann"), s("a@x"), s("h"), s("1"), UserRole::Admin, UserStatus::Active, 0, None);
    let c = jwt.claims_at(&user, 1_000);
    assert_eq!(c.sub, "67e55044-10b1-426f-9247-bb680e5fe0c8");
    assert_eq!(c.email, "a@x");
    assert_eq!(c.role, UserRole::Admin);
    assert_eq!(c.iat, 1_000);
    assert_eq!(c.exp, 4_600);
    let now = chrono::Utc::now().timestamp() as usize;
    let g = jwt.generate_claims(&user).unwrap();
    assert!(g.iat >= now && g.exp == g.iat + 3_600);
    assert!(JwtService::new(s("x"), i64::MAX).generate_claims(&user).is_none());
    let f = jwt.claims_for(&user, 1_000).unwrap();
    assert_eq!(f.exp, 4_600);
    assert_eq!(f.name, "Ann");
    assert_eq!(jwt.claims_for(&user, 8_210_266_873_199).unwrap().exp, 8_210_266_876_799);
    assert!(jwt.claims_for(&user, 8_210_266_873_200).is_none());
    assert!(JwtService::new(s("x"), -60).claims_for(&user, -8_334_601_225_200).is_some());
    assert!(JwtService::new(s("x"), -60).claims_for(&user, -8_334_601_225_201).is_none());
    let last = chrono::NaiveDate::MAX.and_hms_opt(23, 59, 59).unwrap().and_utc().timestamp();
    let first = chrono::NaiveDate::MIN.and_hms_opt(0, 0, 0).unwrap().and_utc().timestamp();
    assert_eq!(last, 8_210_266_876_799);
    assert_eq!(first, -8_334_601_228_800);
    let last_micro = chrono::NaiveDate::MAX.and_hms_micro_opt(23, 59, 59, 999_999).unwrap().and_utc().timestamp_micros();
    assert_eq!(last_micro, doodoo_logistics::clock::LATEST_INSTANT);
    assert!(JwtService::new(s("x"), 153_722_867_280_913).claims_for(&user, 0).is_none());
}

#[test]
fn route_table() {
    let routes = configure_routes();
    assert_eq!(routes.len(), 40);
    assert_eq!(routes[0].method, Method::Get);
    assert_eq!(routes[0].path, "/health");
    assert_eq!(routes[20].path, "/payments/webhook");
    assert_eq!(routes[20].endpoint, Endpoint::HandleWebhook);
    assert_eq!(routes[39].endpoint, Endpoint::DeleteUser);
}

#[test]
fn rows_round_trip() {
    let p = Payment::reconstitute(1, 2, Money::new(5, 1), PaymentStatus::Refunded, 77, PaymentMethod::BankTransfer, s("R"), Some(s("t")), None);
    let row = PaymentRow::from_domain(p);
    assert_eq!(row.status, "Refunded");
    assert_eq!(row.payment_method, "BankTransfer");
    let back = row.into_domain();
    assert_eq!(back.status(), PaymentStatus::Refunded);
    assert_eq!(back.payment_method(), PaymentMethod::BankTransfer);
    assert_eq!(back.paid_at(), 77);
    let u = User::reconstitute(3, s("N"), s("e"), s("h"), s("p"), UserRole::CustomerSupportAgent, UserStatus::Deleted, 5, Some(6));
    let row = UserRow::from_domain(u);
    assert_eq!(row.role, "CustomerSupportAgent");
    let back = row.from_row();
    assert_eq!(back.role(), UserRole::CustomerSupportAgent);
    assert_eq!(back.status(), UserStatus::Deleted);
    assert_eq!(back.updated_at(), Some(6));
    let shown = SignUpResponse::from_domain(back);
    assert_eq!(shown.password, "h");
}

#[test]
fn requests_turn_into_domain_values() {
    let cmd = SignUp { name: s("A"), email: s("e"), password: s("p"), phone_number: s("1"), role: UserRole::Sender }.into_domain();
    assert_eq!(cmd.email(), "e");
    assert_eq!(cmd.role(), UserRole::Sender);
    assert_eq!(PaginationQuery { page: 0, page_size: 500 }.window(), Some((0, 100)));
    assert_eq!(PaginationQuery { page: 3, page_size: 0 }.window(), Some((2, 1)));
    assert_eq!(PaginationQuery { page: 2, page_size: 25 }.window(), Some((25, 25)));
    assert_eq!(PaginationQuery { page: i64::MAX, page_size: 2 }.window(), None);
    let none = recipient_from_parts(Some(s("A")), None, None, None, None, None, None).unwrap();
    assert!(none.is_none());
    let r = recipient_from_parts(Some(s("A")), Some(s("1")), Some(s("s")), Some(s("c")), Some(s("st")), Some(s("co")), Some(s("9")))
        .unwrap()
        .unwrap();
    let shown = RecipientDto::from_recipient(&r);
    assert_eq!(shown.address.country, "co");
    match recipient_from_parts(Some(s("A")), Some(s("1")), Some(s("")), Some(s("c")), Some(s("st")), Some(s("co")), Some(s("9"))) {
        Err(DomainError::ValidationError(v)) => assert_eq!(v, vec![s("Street name must not be empty: ")]),
        other => panic!("unexpected {:?}", other),
    }
    let m = RecipientMapper::from_row(s("A"), s("1"), s("s"), s("c"), s("st"), s("co"), s("9"));
    assert_eq!(m.name(), "A");
    assert_eq!(RecipientMapper::read_row(s("A"), s("1"), s("s"), s("c"), s("st"), s("co"), s("9")).unwrap().contact(), "1");
    match RecipientMapper::read_row(s("A"), s(" "), s("s"), s(""), s("st"), s("co"), s("9")) {
        Err(StoredRecipientError::InvalidAddress(v)) => assert_eq!(v, vec![s("City name must not be empty: ")]),
        other => panic!("unexpected {:?}", other),
    }
    match RecipientMapper::read_row(s("A"), s(" "), s("s"), s("c"), s("st"), s("co"), s("9")) {
        Err(StoredRecipientError::InvalidRecipient(v)) => assert_eq!(v, vec![s("Contact cannot be empty:  ")]),
        other => panic!("unexpected {:?}", other),
    }
    let bad = ProofOfDeliveryDto { image: None, note: s(""), submitted_by: s(""), submitted_at: None }.to_domain();
    match bad {
        Err(DomainError::ValidationError(v)) => assert_eq!(
            v,
            vec![s("Proof of delivery must contain either an image or a note."), s("Unable to fecth the proof's sender details")]
        ),
        other => panic!("unexpected {:?}", other),
    }
}

#[test]
fn webhook_signature_header() {
    assert_eq!(webhook_signature(Some(Some(s("sig-1")))).unwrap(), "sig-1");
    let missing = webhook_signature(None).unwrap_err();
    assert_eq!(missing.status, 400);
    assert!(matches!(missing.body, ReplyBody::Text(ref t) if t == "Missing signature header"));
    let invalid = webhook_signature(Some(None)).unwrap_err();
    assert_eq!(invalid.status, 400);
    assert!(matches!(invalid.body, ReplyBody::Text(ref t) if t == "Invalid signature header"));
}

#[test]
fn outside_texts_and_clock() {
    assert_eq!(amount_problem(Money::new(-250, 1)), "Amount must be a positive value: -25.0");
    assert_eq!(amount_problem(Money::new(0, 0)), "Amount must be a positive value: 0");
    assert_eq!(amount_problem(Money::new(0, 2)), "Amount must be a positive value: 0.00");
    assert_eq!(amount_problem(Money::new(-5, 3)), "Amount must be a positive value: -0.005");
    assert_eq!(DomainError::RevenueNotFoundWithDate { date: 1 }.message(), "Revenue 0001-01-01 not found");
    assert_eq!(DomainError::RevenueNotFoundWithDate { date: i32::MAX }.message(), "Revenue  not found");
    let before = chrono::Utc::now().timestamp_micros();
    let c = Complaint::send_complaint(1, 2, s("late"), s("three days late")).unwrap();
    let after = chrono::Utc::now().timestamp_micros();
    assert!(before <= c.created_at() && c.created_at() <= after);
}
