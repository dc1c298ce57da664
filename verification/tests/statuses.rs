use doodoo_logistics::error::DomainError;
use doodoo_logistics::payment::PaymentMethod;
use doodoo_logistics::payment_status::PaymentStatus;
use doodoo_logistics::shipment_status::ShipmentStatus;
use doodoo_logistics::support_status::{validate_transition, SupportStatus};
use doodoo_logistics::user_status::{UserRole, UserStatus};

#[test]
fn shipment_status_names_round_trip() {
    let all = [
        ShipmentStatus::Created,
        ShipmentStatus::Assigned,
        ShipmentStatus::InTransit,
        ShipmentStatus::OutForDelivery,
        ShipmentStatus::Delivered,
        ShipmentStatus::Cancelled,
    ];
    for s in all {
        assert_eq!(ShipmentStatus::from_string(&s.to_string()), Some(s));
    }
    assert_eq!(ShipmentStatus::Created.to_string(), "Created");
    assert_eq!(ShipmentStatus::OutForDelivery.to_string(), "OutForDelivery");
    assert_eq!(ShipmentStatus::from_string("created"), None);
    assert_eq!(ShipmentStatus::from_string(""), None);
    assert_eq!(ShipmentStatus::from_string("Created "), None);
}

#[test]
fn shipment_status_from_str_reports_the_text() {
    let parsed: Result<ShipmentStatus, String> = "Delivered".parse();
    assert_eq!(parsed, Ok(ShipmentStatus::Delivered));
    let bad: Result<ShipmentStatus, String> = "Lost".parse();
    assert_eq!(bad, Err("Invalid status: Lost".to_string()));
}

#[test]
fn documented_life_cycle_is_accepted() {
    assert!(ShipmentStatus::validate_transition(&ShipmentStatus::Created, &ShipmentStatus::Assigned).is_ok());
    assert!(ShipmentStatus::validate_transition(&ShipmentStatus::Assigned, &ShipmentStatus::InTransit).is_ok());
    assert!(ShipmentStatus::validate_transition(&ShipmentStatus::InTransit, &ShipmentStatus::Delivered).is_ok());
    assert!(ShipmentStatus::validate_transition(&ShipmentStatus::OutForDelivery, &ShipmentStatus::Cancelled).is_ok());
}

#[test]
fn shipment_moves_backwards_and_out_of_final_states_are_refused() {
    let all = [
        ShipmentStatus::Created,
        ShipmentStatus::Assigned,
        ShipmentStatus::InTransit,
        ShipmentStatus::OutForDelivery,
        ShipmentStatus::Delivered,
        ShipmentStatus::Cancelled,
    ];
    for to in all {
        for from in [ShipmentStatus::Delivered, ShipmentStatus::Cancelled] {
            match ShipmentStatus::validate_transition(&from, &to) {
                Err(DomainError::InvalidShipmentStatusTransition { from: f, to: t }) => {
                    assert_eq!(f, from);
                    assert_eq!(t, to);
                }
                other => panic!("unexpected {:?}", other),
            }
        }
    }
    assert!(ShipmentStatus::validate_transition(&ShipmentStatus::InTransit, &ShipmentStatus::Created).is_err());
    assert!(ShipmentStatus::validate_transition(&ShipmentStatus::Created, &ShipmentStatus::Created).is_err());
    assert!(ShipmentStatus::validate_transition(&ShipmentStatus::Created, &ShipmentStatus::Delivered).is_err());
}

#[test]
fn payment_transitions_follow_the_table() {
    let allowed = [
        (PaymentStatus::Pending, PaymentStatus::Failed),
        (PaymentStatus::Pending, PaymentStatus::Refunded),
        (PaymentStatus::Pending, PaymentStatus::Successful),
        (PaymentStatus::Failed, PaymentStatus::Refunded),
        (PaymentStatus::Refunded, PaymentStatus::Pending),
        (PaymentStatus::Refunded, PaymentStatus::Successful),
    ];
    let all = PaymentStatus::statuses();
    assert_eq!(all, &[PaymentStatus::Pending, PaymentStatus::Successful, PaymentStatus::Failed, PaymentStatus::Refunded]);
    for from in all {
        for to in all {
            let ok = allowed.contains(&(*from, *to));
            assert_eq!(PaymentStatus::validate_transition(from, to).is_ok(), ok, "{:?} -> {:?}", from, to);
        }
    }
    assert_eq!(PaymentStatus::from_string("Refunded"), Some(PaymentStatus::Refunded));
    assert_eq!(PaymentStatus::from_string("success"), None);
}

#[test]
fn support_transitions_follow_the_table() {
    let all = SupportStatus::values();
    assert_eq!(all, &[SupportStatus::Open, SupportStatus::InProgress, SupportStatus::Resolved, SupportStatus::Cancelled]);
    let allowed = [(SupportStatus::Open, SupportStatus::InProgress), (SupportStatus::Open, SupportStatus::Resolved), (SupportStatus::Open, SupportStatus::Cancelled), (SupportStatus::InProgress, SupportStatus::Resolved), (SupportStatus::InProgress, SupportStatus::Cancelled)];
    for from in all {
        for to in all {
            let ok = allowed.contains(&(*from, *to));
            assert_eq!(validate_transition(from, to).is_ok(), ok);
        }
    }
    match validate_transition(&SupportStatus::Resolved, &SupportStatus::Open) {
        Err(DomainError::InvalidSupportStatusTransition { from, to }) => {
            assert_eq!(from, SupportStatus::Resolved);
            assert_eq!(to, SupportStatus::Open);
        }
        other => panic!("unexpected {:?}", other),
    }
}

#[test]
fn roles_and_account_statuses_parse() {
    assert_eq!(UserRole::string_roles("ServiceProvider"), Some(UserRole::ServiceProvider));
    assert_eq!(UserRole::string_roles("Courier"), None);
    assert_eq!(UserRole::CustomerSupportAgent.to_string(), "CustomerSupportAgent");
    let bad: Result<UserRole, String> = "Boss".parse();
    assert_eq!(bad, Err("Invalid role: Boss".to_string()));
    assert_eq!(UserStatus::from_string("Suspended"), Some(UserStatus::Suspended));
    assert_eq!(UserStatus::Deleted.to_string(), "Deleted");
    let bad: Result<UserStatus, String> = "Gone".parse();
    assert_eq!(bad, Err("Invalid status: Gone".to_string()));
}

#[test]
fn payment_methods_parse() {
    assert_eq!(PaymentMethod::methods(), &[PaymentMethod::Card, PaymentMethod::MobileMoney, PaymentMethod::BankTransfer]);
    for m in PaymentMethod::methods().iter().copied() {
        assert_eq!(PaymentMethod::from_string(&m.to_string()), Some(m));
    }
    assert_eq!(PaymentMethod::from_string("Cash"), None);
}
