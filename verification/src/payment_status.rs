//! The status of a payment and the transitions allowed between statuses.
use vstd::prelude::*;

use crate::error::DomainError;
use crate::text::str_eq;

verus! {

/// Where a payment stands.
#[derive(Debug, Clone, Copy, PartialEq, Eq, Hash, Structural)]
pub enum PaymentStatus {
    Pending,
    Successful,
    Failed,
    Refunded,
}

impl PaymentStatus {
    /// The name of the status, as it is written and read back.
    pub open spec fn name(self) -> Seq<char> {
        match self {
            PaymentStatus::Pending => "Pending"@,
            PaymentStatus::Successful => "Successful"@,
            PaymentStatus::Failed => "Failed"@,
            PaymentStatus::Refunded => "Refunded"@,
        }
    }

    /// The status that a text names, if it names one.
    pub open spec fn parse(s: Seq<char>) -> Option<PaymentStatus> {
        if s == "Pending"@ {
            Some(PaymentStatus::Pending)
        } else if s == "Successful"@ {
            Some(PaymentStatus::Successful)
        } else if s == "Failed"@ {
            Some(PaymentStatus::Failed)
        } else if s == "Refunded"@ {
            Some(PaymentStatus::Refunded)
        } else {
            None
        }
    }

    /// The moves allowed: from `Pending` to `Failed`, `Refunded` or `Successful`;
    /// from `Failed` to `Refunded`; from `Refunded` to `Pending` or `Successful`;
    /// none out of `Successful`.
    pub open spec fn can_move(from: PaymentStatus, to: PaymentStatus) -> bool {
        match from {
            PaymentStatus::Pending => to == PaymentStatus::Failed || to == PaymentStatus::Refunded
                || to == PaymentStatus::Successful,
            PaymentStatus::Failed => to == PaymentStatus::Refunded,
            PaymentStatus::Refunded => to == PaymentStatus::Pending || to
                == PaymentStatus::Successful,
            PaymentStatus::Successful => false,
        }
    }

    /// Every status, in the order `Pending`, `Successful`, `Failed`, `Refunded`.
    pub fn statuses() -> (r: &'static [PaymentStatus])
        ensures
            r@ == seq![
                PaymentStatus::Pending,
                PaymentStatus::Successful,
                PaymentStatus::Failed,
                PaymentStatus::Refunded,
            ],
    {
        &[
            PaymentStatus::Pending,
            PaymentStatus::Successful,
            PaymentStatus::Failed,
            PaymentStatus::Refunded,
        ]
    }

    /// The status named by `value`, or `None` where it names none.
    pub fn from_string(value: &str) -> (r: Option<PaymentStatus>)
        ensures
            r == PaymentStatus::parse(value@),
    {
        if str_eq(value, "Pending") {
            Some(PaymentStatus::Pending)
        } else if str_eq(value, "Successful") {
            Some(PaymentStatus::Successful)
        } else if str_eq(value, "Failed") {
            Some(PaymentStatus::Failed)
        } else if str_eq(value, "Refunded") {
            Some(PaymentStatus::Refunded)
        } else {
            None
        }
    }

    /// The name of the status.
    pub fn to_string(&self) -> (r: String)
        ensures
            r@ == self.name(),
    {
        match self {
            PaymentStatus::Pending => String::from_str("Pending"),
            PaymentStatus::Successful => String::from_str("Successful"),
            PaymentStatus::Failed => String::from_str("Failed"),
            PaymentStatus::Refunded => String::from_str("Refunded"),
        }
    }

    /// Accepts the move from `current` to `next` where it is allowed; else the
    /// error names both statuses.
    pub fn validate_transition(current: &PaymentStatus, next: &PaymentStatus) -> (r: Result<
        (),
        DomainError,
    >)
        ensures
            r is Ok <==> PaymentStatus::can_move(*current, *next),
            r is Err ==> r == Err::<(), DomainError>(
                DomainError::InvalidPaymentStatusTransition { from: *current, to: *next },
            ),
    {
        let allowed = match current {
            PaymentStatus::Pending => *next == PaymentStatus::Failed || *next
                == PaymentStatus::Refunded || *next == PaymentStatus::Successful,
            PaymentStatus::Failed => *next == PaymentStatus::Refunded,
            PaymentStatus::Refunded => *next == PaymentStatus::Pending || *next
                == PaymentStatus::Successful,
            PaymentStatus::Successful => false,
        };
        if !allowed {
            return Err(DomainError::InvalidPaymentStatusTransition { from: *current, to: *next });
        }
        Ok(())
    }

    /// The status named by `s`; else the text `Invalid status: ` followed by `s`.
    pub fn parse_text(s: &str) -> (r: Result<PaymentStatus, String>)
        ensures
            PaymentStatus::parse(s@) is Some ==> r == Ok::<PaymentStatus, String>(
                PaymentStatus::parse(s@).unwrap(),
            ),
            PaymentStatus::parse(s@) is None ==> r is Err && r->Err_0@ == "Invalid status: "@
                + s@,
    {
        match PaymentStatus::from_string(s) {
            Some(v) => Ok(v),
            None => Err(crate::text::cat("Invalid status: ", s)),
        }
    }
}

/// A successful payment can move nowhere.
pub proof fn lemma_successful_is_final(to: PaymentStatus)
    ensures
        !PaymentStatus::can_move(PaymentStatus::Successful, to),
{
}

/// No status moves to itself.
pub proof fn lemma_no_move_in_place(s: PaymentStatus)
    ensures
        !PaymentStatus::can_move(s, s),
{
}

/// Every status but `Successful` leads to `Successful` in at most two moves.
pub proof fn lemma_success_reachable(s: PaymentStatus)
    requires
        s != PaymentStatus::Successful,
    ensures
        PaymentStatus::can_move(s, PaymentStatus::Successful) || PaymentStatus::can_move(
            s,
            PaymentStatus::Refunded,
        ),
        PaymentStatus::can_move(PaymentStatus::Refunded, PaymentStatus::Successful),
{
}

/// Reading back the name of a status gives the status.
pub proof fn lemma_name_round_trip(s: PaymentStatus)
    ensures
        PaymentStatus::parse(s.name()) == Some(s),
{
    reveal_strlit("Pending");
    reveal_strlit("Successful");
    reveal_strlit("Failed");
    reveal_strlit("Refunded");
    assert("Pending"@.len() == 7 && "Pending"@[0] == 'P');
    assert("Successful"@.len() == 10 && "Successful"@[0] == 'S');
    assert("Failed"@.len() == 6 && "Failed"@[0] == 'F');
    assert("Refunded"@.len() == 8 && "Refunded"@[0] == 'R');
}

impl std::str::FromStr for PaymentStatus {
    type Err = String;

    fn from_str(s: &str) -> (r: Result<PaymentStatus, String>)
        ensures
            PaymentStatus::parse(s@) is Some ==> r == Ok::<PaymentStatus, String>(PaymentStatus::parse(s@).unwrap()),
            PaymentStatus::parse(s@) is None ==> r is Err && r->Err_0@ == "Invalid status: "@ + s@,
    {
        PaymentStatus::parse_text(s)
    }
}

} // verus!
