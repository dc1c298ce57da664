use doodoo_logistics::address::Address;
use doodoo_logistics::dto::{dimension_parts, package_parts, shipment_from_request};
use doodoo_logistics::error::DomainError;
use doodoo_logistics::money::Money;
use doodoo_logistics::package::{contents_error, Dimensions, PackageDetails};
use doodoo_logistics::payment::{Payment, PaymentMethod};
use doodoo_logistics::payment_status::PaymentStatus;
use doodoo_logistics::proof_of_delivery::ProofOfDelivery;
use doodoo_logistics::recipient::Recipient;
use doodoo_logistics::shipment::Shipment;
use doodoo_logistics::shipment_status::ShipmentStatus;
use doodoo_logistics::support::{Comment, Complaint};
use doodoo_logistics::support_status::SupportStatus;
use doodoo_logistics::user::User;
use doodoo_logistics::user_status::{UserRole, UserStatus};

fn s(x: &str) -> String {
    x.to_string()
}

fn address() -> Address {
    Address::create(s("1 Main St"), s("Lagos"), s("Lagos"), s("Nigeria"), s("100001")).unwrap()
}

fn recipient() -> Recipient {
    Recipient::create(s("Ada"), s("+234 800"), address()).unwrap()
}

fn package() -> PackageDetails {
    PackageDetails::from_parts(2.5f64.to_bits(), Dimensions::from_bits(10f64.to_bits(), 20f64.to_bits(), 30f64.to_bits()), s("Books"))
}

fn a_proof(by: &str) -> ProofOfDelivery {
    ProofOfDelivery::create(None, s("left at door"), s(by)).unwrap()
}

fn delivered_shipment() -> Shipment {
    let sh = Shipment::create(s("Bola"), recipient(), package(), None).unwrap();
    let sh = sh.update_status(ShipmentStatus::InTransit).unwrap();
    sh.update_status(ShipmentStatus::Delivered).unwrap()
}

#[test]
fn address_lists_every_blank_part_in_order() {
    let errs = Address::create(s(" "), s("Lagos"), s(""), s("Nigeria"), s("\t\n")).unwrap_err();
    assert_eq!(
        errs,
        vec![
            s("Street name must not be empty:  "),
            s("State must not be empty: "),
            s("Postal Code must not be empty: \t\n"),
        ]
    );
    let a = address();
    assert_eq!(a.street(), "1 Main St");
    assert_eq!(a.city(), "Lagos");
    assert_eq!(a.postal_code(), "100001");
}

#[test]
fn unicode_whitespace_counts_as_blank() {
    let errs = Address::create(s("\u{3000}\u{00A0}"), s("x"), s("x"), s("x"), s("x")).unwrap_err();
    assert_eq!(errs.len(), 1);
    assert!(Address::create(s(" a "), s("x"), s("x"), s("x"), s("x")).is_ok());
}

#[test]
fn recipient_needs_name_and_contact() {
    let errs = Recipient::create(s(""), s(" "), address()).unwrap_err();
    assert_eq!(errs, vec![s("Name must not be empty: "), s("Contact cannot be empty:  ")]);
    let r = recipient();
    assert_eq!(r.name(), "Ada");
    assert_eq!(r.contact(), "+234 800");
    assert_eq!(r.address().country(), "Nigeria");
}

#[test]
fn contents_must_be_described() {
    assert_eq!(contents_error("  "), Some(s("Content must not be empty:   ")));
    assert_eq!(contents_error("Books"), None);
    let p = package();
    assert_eq!(f64::from_bits(p.weight_bits()), 2.5);
    assert_eq!(p.contents(), "Books");
    assert_eq!(f64::from_bits(p.dimensions().height_bits), 30.0);
}

#[test]
fn proof_of_delivery_is_trimmed_and_checked() {
    let p = ProofOfDelivery::create(Some(s("  img.png ")), s("  note "), s(" courier-1 ")).unwrap();
    assert_eq!(p.image(), Some(s("img.png")));
    assert_eq!(p.note(), "note");
    assert_eq!(p.submitted_by(), "courier-1");
    let p = ProofOfDelivery::create(Some(s("   ")), s("note"), s("x")).unwrap();
    assert_eq!(p.image(), None);
    let errs = ProofOfDelivery::create(Some(s(" ")), s(" "), s(" ")).unwrap_err();
    assert_eq!(errs.len(), 2);
    assert!(matches!(errs[0], DomainError::ProofMustContainImageOrNote));
    assert!(matches!(errs[1], DomainError::SubmittedByEmptyError));
    let errs = ProofOfDelivery::create(None, s("ok"), s("")).unwrap_err();
    assert_eq!(errs.len(), 1);
    assert!(matches!(errs[0], DomainError::SubmittedByEmptyError));
}

#[test]
fn new_shipment_starts_created_with_a_tracking_number() {
    let sh = Shipment::create(s("Bola"), recipient(), package(), None).unwrap();
    assert_eq!(sh.status(), ShipmentStatus::Created);
    assert_ne!(sh.id(), 0);
    assert_eq!(sh.created_at(), sh.updated_at());
    assert!(sh.proof_of_delivery().is_empty());
    let t = sh.tracking_number();
    assert_eq!(t.len(), 40);
    assert!(t.starts_with("TRK-"));
    assert!(uuid::Uuid::parse_str(&t[4..]).is_ok());
    assert_eq!(&t[4..], t[4..].to_lowercase());
    let other = Shipment::create(s("Bola"), recipient(), package(), None).unwrap();
    assert_ne!(other.tracking_number(), sh.tracking_number());
    assert_ne!(other.id(), sh.id());
}

#[test]
fn shipment_with_blank_sender_is_refused() {
    match Shipment::create(s("  "), recipient(), package(), None) {
        Err(DomainError::ValidationError(v)) => assert_eq!(v, vec![s("Sender name must not be empty")]),
        other => panic!("unexpected {:?}", other),
    }
}

#[test]
fn shipment_status_change_keeps_everything_else() {
    let sh = Shipment::create(s("Bola"), recipient(), package(), Some(7)).unwrap();
    let moved = sh.update_status(ShipmentStatus::Assigned).unwrap();
    assert_eq!(moved.status(), ShipmentStatus::Assigned);
    assert_eq!(moved.id(), sh.id());
    assert_eq!(moved.tracking_number(), sh.tracking_number());
    assert_eq!(moved.service_provider_id(), Some(7));
    assert_eq!(moved.created_at(), sh.created_at());
    match sh.update_status(ShipmentStatus::Delivered) {
        Err(DomainError::InvalidShipmentStatusTransition { from, to }) => {
            assert_eq!(from, ShipmentStatus::Created);
            assert_eq!(to, ShipmentStatus::Delivered);
        }
        other => panic!("unexpected {:?}", other),
    }
    assert_eq!(sh.status(), ShipmentStatus::Created);
}

#[test]
fn set_status_bypasses_the_life_cycle() {
    let mut sh = delivered_shipment();
    sh.set_status(ShipmentStatus::Created);
    assert_eq!(sh.status(), ShipmentStatus::Created);
    sh.set_sender_name(s("Chi"));
    assert_eq!(sh.sender_name(), "Chi");
    sh.set_service_provider_id(Some(9));
    assert_eq!(sh.service_provider_id(), Some(9));
}

#[test]
fn proof_needs_a_delivered_shipment() {
    let sh = Shipment::create(s("Bola"), recipient(), package(), None).unwrap();
    assert!(matches!(sh.attach_proof_of_delivery(a_proof("a")), Err(DomainError::ShipmentNotDelivered)));
}

#[test]
fn proofs_from_one_submitter_are_refused_twice() {
    let sh = delivered_shipment();
    let sh = sh.attach_proof_of_delivery(a_proof("courier-1")).unwrap();
    assert_eq!(sh.proof_of_delivery().len(), 1);
    assert!(matches!(sh.attach_proof_of_delivery(a_proof("courier-1")), Err(DomainError::DuplicateProofOfDelivery)));
    let sh = sh.attach_proof_of_delivery(a_proof("courier-2")).unwrap();
    assert_eq!(sh.proof_of_delivery().len(), 2);
    assert_eq!(sh.proof_of_delivery()[0].submitted_by(), "courier-1");
    assert_eq!(sh.proof_of_delivery()[1].submitted_by(), "courier-2");
}

#[test]
fn delivery_estimate_is_three_days_later() {
    assert_eq!(Shipment::delivery_estimate_at(0), 259_200_000_000);
    let sh = delivered_shipment();
    let before = chrono::Utc::now().timestamp_micros();
    let est = sh.delivery_date_estimate();
    let after = chrono::Utc::now().timestamp_micros();
    assert!(before + 259_200_000_000 <= est && est <= after + 259_200_000_000);
}

#[test]
fn updated_shipment_replaces_the_edited_parts() {
    let sh = delivered_shipment().attach_proof_of_delivery(a_proof("x")).unwrap();
    let r2 = Recipient::create(s("Obi"), s("555"), address()).unwrap();
    let up = sh.updated_shipment(s("New Sender"), r2, package());
    assert_eq!(up.sender_name(), "New Sender");
    assert_eq!(up.recipient().name(), "Obi");
    assert_eq!(up.status(), ShipmentStatus::Delivered);
    assert_eq!(up.proof_of_delivery().len(), 1);
    assert_eq!(up.id(), sh.id());
}

#[test]
fn payment_validation_lists_problems() {
    match Payment::generate_payment(0, 0, Money::new(0, 0), PaymentMethod::Card) {
        Err(DomainError::ValidationError(v)) => assert_eq!(
            v,
            vec![
                s("Customer id must not be empty"),
                s("Shipment id  must not be empty"),
                s("Amount must be a positive value: 0"),
            ]
        ),
        other => panic!("unexpected {:?}", other),
    }
    match Payment::generate_payment(1, 2, Money::new(-150, 2), PaymentMethod::Card) {
        Err(DomainError::ValidationError(v)) => assert_eq!(v, vec![s("Amount must be a positive value: -1.50")]),
        other => panic!("unexpected {:?}", other),
    }
}

#[test]
fn new_payment_is_pending_with_a_reference() {
    let p = Payment::generate_payment(1, 2, Money::new(1999, 2), PaymentMethod::MobileMoney).unwrap();
    assert_eq!(p.status(), PaymentStatus::Pending);
    assert_eq!(p.amount(), Money::new(1999, 2));
    assert_eq!(p.customer_id(), 1);
    assert_eq!(p.shipment_id(), 2);
    assert_eq!(p.payment_method(), PaymentMethod::MobileMoney);
    assert_eq!(p.gateway_transaction_id(), None);
    assert_eq!(p.failure_reason(), None);
    let r = p.reference_number();
    assert_eq!(r.len(), 18);
    assert!(r.starts_with("RF-DODO-"));
    assert!(r[8..].chars().all(|c| c.is_ascii_digit() || ('A'..='F').contains(&c)));
}

#[test]
fn success_needs_a_transaction() {
    let p = Payment::generate_payment(1, 2, Money::new(5, 0), PaymentMethod::Card).unwrap();
    match p.clone().update_status(PaymentStatus::Successful, None) {
        Err(DomainError::PaymentGatewayError { signature }) => assert_eq!(signature, "missing transaction id"),
        other => panic!("unexpected {:?}", other),
    }
    let ok = p.clone().update_status(PaymentStatus::Successful, Some(s("tx-1"))).unwrap();
    assert_eq!(ok.status(), PaymentStatus::Successful);
    assert_eq!(ok.gateway_transaction_id(), Some(s("tx-1")));
    let failed = p.update_status(PaymentStatus::Failed, None).unwrap();
    assert_eq!(failed.status(), PaymentStatus::Failed);
}

#[test]
fn gateway_reference_replaces_the_reference() {
    let mut p = Payment::generate_payment(1, 2, Money::new(5, 0), PaymentMethod::Card).unwrap();
    p.set_status(PaymentStatus::Failed);
    p.set_failure_reason(Some(s("declined")));
    assert_eq!(p.failure_reason(), Some(s("declined")));
    let p = p.attach_gateway_response(s("GW-1"));
    assert_eq!(p.reference_number(), "GW-1");
    assert_eq!(p.status(), PaymentStatus::Pending);
}

#[test]
fn complaint_validation_lists_problems() {
    match Complaint::send_complaint(0, 0, s(""), s(" ")) {
        Err(DomainError::ValidationError(v)) => assert_eq!(
            v,
            vec![
                s("User id must be provided"),
                s("Shipment id must to be provided"),
                s("Subject cannot be empty"),
                s("Complain Description must be provided"),
            ]
        ),
        other => panic!("unexpected {:?}", other),
    }
    let c = Complaint::send_complaint(1, 2, s("Late"), s("Still waiting")).unwrap();
    assert_eq!(c.status(), SupportStatus::Open);
    assert_eq!(c.resolved_at(), None);
    assert!(c.comment().is_empty());
    assert_eq!(c.subject(), "Late");
}

#[test]
fn complaint_status_change_sets_resolution_time() {
    let c = Complaint::send_complaint(1, 2, s("Late"), s("Still waiting")).unwrap();
    let r = c.update_status(&SupportStatus::Resolved).unwrap();
    assert_eq!(r.status(), SupportStatus::Resolved);
    assert!(r.resolved_at().is_some());
    match r.update_status(&SupportStatus::Open) {
        Err(DomainError::InvalidSupportStatusTransition { from, to }) => {
            assert_eq!(from, SupportStatus::Resolved);
            assert_eq!(to, SupportStatus::Open);
        }
        other => panic!("unexpected {:?}", other),
    }
}

#[test]
fn comment_validation() {
    match Comment::make_comment(0, s(" ")) {
        Err(DomainError::ValidationError(v)) => {
            assert_eq!(v, vec![s("Author id must be provided"), s("Message cannot be empty")])
        }
        other => panic!("unexpected {:?}", other),
    }
    let c = Comment::make_comment(3, s("hello")).unwrap();
    assert_eq!(c.author_id(), 3);
    assert_eq!(c.message(), "hello");
    assert_ne!(c.id(), 0);
}

#[test]
fn account_validation_counts_password_bytes() {
    match User::create_user(s(""), s(""), s(""), s("1"), UserRole::Sender) {
        Err(DomainError::ValidationError(v)) => assert_eq!(
            v,
            vec![
                s("Name is required"),
                s("Email address is required"),
                s("Password must be provided"),
                s("Password must be at least 8 characters"),
            ]
        ),
        other => panic!("unexpected {:?}", other),
    }
    // four two-byte characters make eight bytes
    let u = User::create_user(s("A"), s("a@b.c"), s("éééé"), s("1"), UserRole::Sender).unwrap();
    assert_eq!(u.status(), UserStatus::Active);
    assert_eq!(u.updated_at(), None);
    assert_eq!(u.hash_password(), "éééé");
    assert!(User::create_user(s("A"), s("a@b.c"), s("1234567"), s("1"), UserRole::Sender).is_err());
}

#[test]
fn account_edits_stamp_the_update_time() {
    let u = User::create_user(s("A"), s("a@b.c"), s("password1"), s("1"), UserRole::Sender).unwrap();
    let v = u.update_user(s("B"), s("b@c.d"), s("2"), UserRole::Admin);
    assert_eq!(v.name(), "B");
    assert_eq!(v.role(), UserRole::Admin);
    assert_eq!(v.id(), u.id());
    assert!(v.updated_at().is_some());
    let w = v.update_status(UserStatus::Suspended).unwrap();
    assert_eq!(w.status(), UserStatus::Suspended);
    let mut x = w.clone();
    x.set_status(UserStatus::Active);
    assert_eq!(x.status(), UserStatus::Active);
}

#[test]
fn a_password_checks_against_its_hash() {
    let h = User::hash_password_value(s("correct horse")).unwrap();
    assert_eq!(h.len(), 60);
    assert!(User::check_password("correct horse", &h).unwrap());
    assert!(!User::check_password("wrong horse", &h).unwrap());
    assert!(User::check_password("correct horse", "not a hash").is_err());
}

#[test]
fn edit_gives_all_measures_or_none() {
    assert_eq!(dimension_parts(Some(1.0f64), Some(2.0), Some(3.0)).unwrap(), Some((1.0, 2.0, 3.0)));
    assert_eq!(dimension_parts::<f64>(None, None, None).unwrap(), None);
    match dimension_parts(Some(1.0f64), None, Some(3.0)) {
        Err(DomainError::ValidationError(v)) => assert_eq!(v, vec![s("Incomplete dimensions provided")]),
        other => panic!("unexpected {:?}", other),
    }
}

#[test]
fn edit_gives_whole_parcel_or_none() {
    let dims = Dimensions::from_bits(1, 2, 3);
    let got = package_parts(Some(2.5f64), Some(s("Books")), Some(dims)).unwrap().unwrap();
    assert_eq!(got.0, 2.5);
    assert_eq!(got.1, "Books");
    assert_eq!(got.2, dims);
    assert!(package_parts::<f64, Dimensions>(None, None, None).unwrap().is_none());
    match package_parts(Some(2.5f64), None, Some(dims)) {
        Err(DomainError::ValidationError(v)) => assert_eq!(v, vec![s("Incomplete package details provided")]),
        other => panic!("unexpected {:?}", other),
    }
}

#[test]
fn shipment_request_checks_in_order() {
    let ok = shipment_from_request(
        s("Bola"), s("Ada"), s("+234"), s("1 Main"), s("Lagos"), s("Lagos"), s("NG"), s("100001"), Ok(package()),
    )
    .unwrap();
    assert_eq!(ok.status(), ShipmentStatus::Created);
    assert_eq!(ok.recipient().name(), "Ada");
    assert!(ok.service_provider_id().is_none());
    match shipment_from_request(
        s("Bola"), s(""), s("+234"), s(""), s("Lagos"), s("Lagos"), s("NG"), s("100001"), Err(vec![s("Weight")]),
    ) {
        Err(DomainError::ValidationError(v)) => assert_eq!(v, vec![s("Street name must not be empty: ")]),
        other => panic!("unexpected {:?}", other),
    }
    match shipment_from_request(
        s("Bola"), s(""), s("+234"), s("1 Main"), s("Lagos"), s("Lagos"), s("NG"), s("100001"), Err(vec![s("Weight")]),
    ) {
        Err(DomainError::ValidationError(v)) => assert_eq!(v, vec![s("Weight")]),
        other => panic!("unexpected {:?}", other),
    }
    match shipment_from_request(
        s(" "), s(""), s("+234"), s("1 Main"), s("Lagos"), s("Lagos"), s("NG"), s("100001"), Ok(package()),
    ) {
        Err(DomainError::ValidationError(v)) => assert_eq!(v, vec![s("Name must not be empty: ")]),
        other => panic!("unexpected {:?}", other),
    }
    match shipment_from_request(
        s(" "), s("Ada"), s("+234"), s("1 Main"), s("Lagos"), s("Lagos"), s("NG"), s("100001"), Ok(package()),
    ) {
        Err(DomainError::ValidationError(v)) => assert_eq!(v, vec![s("Sender name must not be empty")]),
        other => panic!("unexpected {:?}", other),
    }
}
