//! The status of a shipment and the transitions allowed between statuses.
use vstd::prelude::*;

use crate::error::DomainError;
use crate::text::str_eq;

verus! {

/// Where a shipment stands in its life cycle.
#[derive(Debug, Clone, Copy, PartialEq, Eq, Hash, Structural)]
pub enum ShipmentStatus {
    Created,
    Assigned,
    InTransit,
    OutForDelivery,
    Delivered,
    Cancelled,
}

impl ShipmentStatus {
    /// The name of the status, as it is written and read back.
    pub open spec fn name(self) -> Seq<char> {
        match self {
            ShipmentStatus::Created => "Created"@,
            ShipmentStatus::Assigned => "Assigned"@,
            ShipmentStatus::InTransit => "InTransit"@,
            ShipmentStatus::OutForDelivery => "OutForDelivery"@,
            ShipmentStatus::Delivered => "Delivered"@,
            ShipmentStatus::Cancelled => "Cancelled"@,
        }
    }

    /// The status that a text names, if it names one.
    pub open spec fn parse(s: Seq<char>) -> Option<ShipmentStatus> {
        if s == "Created"@ {
            Some(ShipmentStatus::Created)
        } else if s == "Assigned"@ {
            Some(ShipmentStatus::Assigned)
        } else if s == "InTransit"@ {
            Some(ShipmentStatus::InTransit)
        } else if s == "OutForDelivery"@ {
            Some(ShipmentStatus::OutForDelivery)
        } else if s == "Delivered"@ {
            Some(ShipmentStatus::Delivered)
        } else if s == "Cancelled"@ {
            Some(ShipmentStatus::Cancelled)
        } else {
            None
        }
    }

    /// The moves that the life cycle allows: from `Created` to `Assigned`,
    /// `InTransit` or `Cancelled`; from `Assigned` to `InTransit`,
    /// `OutForDelivery` or `Cancelled`; from `InTransit` to `OutForDelivery`,
    /// `Delivered` or `Cancelled`; from `OutForDelivery` to `Delivered` or
    /// `Cancelled`; none out of `Delivered` or `Cancelled`.
    pub open spec fn can_move(from: ShipmentStatus, to: ShipmentStatus) -> bool {
        match from {
            ShipmentStatus::Created => to == ShipmentStatus::Assigned || to
                == ShipmentStatus::InTransit || to == ShipmentStatus::Cancelled,
            ShipmentStatus::Assigned => to == ShipmentStatus::InTransit || to
                == ShipmentStatus::OutForDelivery || to == ShipmentStatus::Cancelled,
            ShipmentStatus::InTransit => to == ShipmentStatus::OutForDelivery || to
                == ShipmentStatus::Delivered || to == ShipmentStatus::Cancelled,
            ShipmentStatus::OutForDelivery => to == ShipmentStatus::Delivered || to
                == ShipmentStatus::Cancelled,
            ShipmentStatus::Delivered => false,
            ShipmentStatus::Cancelled => false,
        }
    }

    /// The status named by `value`, or `None` where it names none.
    pub fn from_string(value: &str) -> (r: Option<ShipmentStatus>)
        ensures
            r == ShipmentStatus::parse(value@),
    {
        if str_eq(value, "Created") {
            Some(ShipmentStatus::Created)
        } else if str_eq(value, "Assigned") {
            Some(ShipmentStatus::Assigned)
        } else if str_eq(value, "InTransit") {
            Some(ShipmentStatus::InTransit)
        } else if str_eq(value, "OutForDelivery") {
            Some(ShipmentStatus::OutForDelivery)
        } else if str_eq(value, "Delivered") {
            Some(ShipmentStatus::Delivered)
        } else if str_eq(value, "Cancelled") {
            Some(ShipmentStatus::Cancelled)
        } else {
            None
        }
    }

    /// The name of the status.
    pub fn to_string(&self) -> (r: String)
        ensures
            r@ == self.name(),
    {
        match self {
            ShipmentStatus::Created => String::from_str("Created"),
            ShipmentStatus::Assigned => String::from_str("Assigned"),
            ShipmentStatus::InTransit => String::from_str("InTransit"),
            ShipmentStatus::OutForDelivery => String::from_str("OutForDelivery"),
            ShipmentStatus::Delivered => String::from_str("Delivered"),
            ShipmentStatus::Cancelled => String::from_str("Cancelled"),
        }
    }

    /// Accepts the move from `current` to `next` where the life cycle allows it;
    /// else the error names both statuses.
    pub fn validate_transition(current: &ShipmentStatus, next: &ShipmentStatus) -> (r: Result<
        (),
        DomainError,
    >)
        ensures
            r is Ok <==> ShipmentStatus::can_move(*current, *next),
            r is Err ==> r == Err::<(), DomainError>(
                DomainError::InvalidShipmentStatusTransition { from: *current, to: *next },
            ),
    {
        let allowed = match current {
            ShipmentStatus::Created => *next == ShipmentStatus::Assigned || *next
                == ShipmentStatus::InTransit || *next == ShipmentStatus::Cancelled,
            ShipmentStatus::Assigned => *next == ShipmentStatus::InTransit || *next
                == ShipmentStatus::OutForDelivery || *next == ShipmentStatus::Cancelled,
            ShipmentStatus::InTransit => *next == ShipmentStatus::OutForDelivery || *next
                == ShipmentStatus::Delivered || *next == ShipmentStatus::Cancelled,
            ShipmentStatus::OutForDelivery => *next == ShipmentStatus::Delivered || *next
                == ShipmentStatus::Cancelled,
            ShipmentStatus::Delivered => false,
            ShipmentStatus::Cancelled => false,
        };
        if !allowed {
            return Err(DomainError::InvalidShipmentStatusTransition { from: *current, to: *next });
        }
        Ok(())
    }

    /// The status named by `s`; else the text `Invalid status: ` followed by `s`.
    pub fn parse_text(s: &str) -> (r: Result<ShipmentStatus, String>)
        ensures
            ShipmentStatus::parse(s@) is Some ==> r == Ok::<ShipmentStatus, String>(
                ShipmentStatus::parse(s@).unwrap(),
            ),
            ShipmentStatus::parse(s@) is None ==> r is Err && r->Err_0@ == "Invalid status: "@
                + s@,
    {
        match ShipmentStatus::from_string(s) {
            Some(v) => Ok(v),
            None => Err(crate::text::cat("Invalid status: ", s)),
        }
    }
}

/// The place of a status along the life cycle; `Cancelled` counts as the end.
pub open spec fn stage(s: ShipmentStatus) -> int {
    match s {
        ShipmentStatus::Created => 0,
        ShipmentStatus::Assigned => 1,
        ShipmentStatus::InTransit => 2,
        ShipmentStatus::OutForDelivery => 3,
        ShipmentStatus::Delivered => 4,
        ShipmentStatus::Cancelled => 5,
    }
}

/// Every allowed move goes strictly forward along the life cycle, so no
/// sequence of moves brings a shipment back to a status that it has left.
pub proof fn lemma_moves_go_forward(from: ShipmentStatus, to: ShipmentStatus)
    requires
        ShipmentStatus::can_move(from, to),
    ensures
        stage(from) < stage(to),
{
}

/// A delivered or cancelled shipment can move nowhere.
pub proof fn lemma_final_statuses(to: ShipmentStatus)
    ensures
        !ShipmentStatus::can_move(ShipmentStatus::Delivered, to),
        !ShipmentStatus::can_move(ShipmentStatus::Cancelled, to),
{
}

/// A shipment that is neither delivered nor cancelled can always be cancelled.
pub proof fn lemma_open_shipment_can_be_cancelled(s: ShipmentStatus)
    requires
        s != ShipmentStatus::Delivered,
        s != ShipmentStatus::Cancelled,
    ensures
        ShipmentStatus::can_move(s, ShipmentStatus::Cancelled),
{
}

/// The life cycle that the project describes, Created, Assigned, InTransit,
/// Delivered, is a chain of allowed moves.
pub proof fn lemma_documented_life_cycle()
    ensures
        ShipmentStatus::can_move(ShipmentStatus::Created, ShipmentStatus::Assigned),
        ShipmentStatus::can_move(ShipmentStatus::Assigned, ShipmentStatus::InTransit),
        ShipmentStatus::can_move(ShipmentStatus::InTransit, ShipmentStatus::Delivered),
{
}

/// Every status that is not final leads to `Delivered`: either directly or
/// through one status in between. A shipment that is under way can always
/// still be delivered.
pub proof fn lemma_delivery_reachable(s: ShipmentStatus)
    requires
        s != ShipmentStatus::Delivered,
        s != ShipmentStatus::Cancelled,
    ensures
        exists|m: ShipmentStatus|
            #![trigger ShipmentStatus::can_move(s, m)]
            ShipmentStatus::can_move(s, m) && (m == ShipmentStatus::Delivered
                || ShipmentStatus::can_move(m, ShipmentStatus::Delivered)),
{
    match s {
        ShipmentStatus::Created => {
            assert(ShipmentStatus::can_move(s, ShipmentStatus::InTransit));
        },
        ShipmentStatus::Assigned => {
            assert(ShipmentStatus::can_move(s, ShipmentStatus::OutForDelivery));
        },
        _ => {
            assert(ShipmentStatus::can_move(s, ShipmentStatus::Delivered));
        },
    }
}

/// The moves that the life cycle allows, one by one: a shipment that was
/// created can be assigned, sent or cancelled; an assigned one can be sent,
/// taken out for delivery or cancelled; one in transit can be taken out for
/// delivery, delivered or cancelled; one out for delivery can be delivered or
/// cancelled. Each status allows exactly these moves and no other.
pub proof fn lemma_allowed_moves(to: ShipmentStatus)
    ensures
        ShipmentStatus::can_move(ShipmentStatus::Created, ShipmentStatus::Assigned),
        ShipmentStatus::can_move(ShipmentStatus::Created, ShipmentStatus::InTransit),
        ShipmentStatus::can_move(ShipmentStatus::Created, ShipmentStatus::Cancelled),
        ShipmentStatus::can_move(ShipmentStatus::Assigned, ShipmentStatus::InTransit),
        ShipmentStatus::can_move(ShipmentStatus::Assigned, ShipmentStatus::OutForDelivery),
        ShipmentStatus::can_move(ShipmentStatus::Assigned, ShipmentStatus::Cancelled),
        ShipmentStatus::can_move(ShipmentStatus::InTransit, ShipmentStatus::OutForDelivery),
        ShipmentStatus::can_move(ShipmentStatus::InTransit, ShipmentStatus::Delivered),
        ShipmentStatus::can_move(ShipmentStatus::InTransit, ShipmentStatus::Cancelled),
        ShipmentStatus::can_move(ShipmentStatus::OutForDelivery, ShipmentStatus::Delivered),
        ShipmentStatus::can_move(ShipmentStatus::OutForDelivery, ShipmentStatus::Cancelled),
        ShipmentStatus::can_move(ShipmentStatus::Created, to) ==> to == ShipmentStatus::Assigned
            || to == ShipmentStatus::InTransit || to == ShipmentStatus::Cancelled,
        ShipmentStatus::can_move(ShipmentStatus::Assigned, to) ==> to == ShipmentStatus::InTransit
            || to == ShipmentStatus::OutForDelivery || to == ShipmentStatus::Cancelled,
        ShipmentStatus::can_move(ShipmentStatus::InTransit, to) ==> to
            == ShipmentStatus::OutForDelivery || to == ShipmentStatus::Delivered || to
            == ShipmentStatus::Cancelled,
        ShipmentStatus::can_move(ShipmentStatus::OutForDelivery, to) ==> to
            == ShipmentStatus::Delivered || to == ShipmentStatus::Cancelled,
{
}

/// Reading back the name of a status gives the status.
pub proof fn lemma_name_round_trip(s: ShipmentStatus)
    ensures
        ShipmentStatus::parse(s.name()) == Some(s),
{
    reveal_strlit("Created");
    reveal_strlit("Assigned");
    reveal_strlit("InTransit");
    reveal_strlit("OutForDelivery");
    reveal_strlit("Delivered");
    reveal_strlit("Cancelled");
    assert("Created"@.len() == 7 && "Created"@[0] == 'C');
    assert("Assigned"@.len() == 8 && "Assigned"@[0] == 'A');
    assert("InTransit"@.len() == 9 && "InTransit"@[0] == 'I');
    assert("OutForDelivery"@.len() == 14 && "OutForDelivery"@[0] == 'O');
    assert("Delivered"@.len() == 9 && "Delivered"@[0] == 'D');
    assert("Cancelled"@.len() == 9 && "Cancelled"@[0] == 'C');
}

impl std::str::FromStr for ShipmentStatus {
    type Err = String;

    fn from_str(s: &str) -> (r: Result<ShipmentStatus, String>)
        ensures
            ShipmentStatus::parse(s@) is Some ==> r == Ok::<ShipmentStatus, String>(
                ShipmentStatus::parse(s@).unwrap(),
            ),
            ShipmentStatus::parse(s@) is None ==> r is Err && r->Err_0@ == "Invalid status: "@
                + s@,
    {
        ShipmentStatus::parse_text(s)
    }
}

} // verus!
