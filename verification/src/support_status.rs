//! The status of a complaint and the transitions allowed between statuses.
use vstd::prelude::*;

use crate::error::DomainError;
use crate::text::str_eq;

verus! {

/// Where a complaint stands.
#[derive(Debug, Clone, Copy, PartialEq, Eq, Hash, Structural)]
pub enum SupportStatus {
    Open,
    InProgress,
    Resolved,
    Cancelled,
}

impl SupportStatus {
    /// The name of the status, as it is written and read back.
    pub open spec fn name(self) -> Seq<char> {
        match self {
            SupportStatus::Open => "Open"@,
            SupportStatus::InProgress => "InProgress"@,
            SupportStatus::Resolved => "Resolved"@,
            SupportStatus::Cancelled => "Cancelled"@,
        }
    }

    /// The status that a text names, if it names one.
    pub open spec fn parse(s: Seq<char>) -> Option<SupportStatus> {
        if s == "Open"@ {
            Some(SupportStatus::Open)
        } else if s == "InProgress"@ {
            Some(SupportStatus::InProgress)
        } else if s == "Resolved"@ {
            Some(SupportStatus::Resolved)
        } else if s == "Cancelled"@ {
            Some(SupportStatus::Cancelled)
        } else {
            None
        }
    }

    /// The moves allowed: from `Open` to `InProgress`, `Resolved` or `Cancelled`;
    /// from `InProgress` to `Resolved` or `Cancelled`; none out of `Resolved` or
    /// `Cancelled`.
    pub open spec fn can_move(from: SupportStatus, to: SupportStatus) -> bool {
        match from {
            SupportStatus::Open => to == SupportStatus::InProgress || to == SupportStatus::Resolved
                || to == SupportStatus::Cancelled,
            SupportStatus::InProgress => to == SupportStatus::Resolved || to
                == SupportStatus::Cancelled,
            SupportStatus::Resolved => false,
            SupportStatus::Cancelled => false,
        }
    }

    /// Every status, in the order `Open`, `InProgress`, `Resolved`, `Cancelled`.
    pub fn values() -> (r: &'static [SupportStatus])
        ensures
            r@ == seq![
                SupportStatus::Open,
                SupportStatus::InProgress,
                SupportStatus::Resolved,
                SupportStatus::Cancelled,
            ],
    {
        &[
            SupportStatus::Open,
            SupportStatus::InProgress,
            SupportStatus::Resolved,
            SupportStatus::Cancelled,
        ]
    }

    /// The status named by `value`, or `None` where it names none.
    pub fn from_string(value: &str) -> (r: Option<SupportStatus>)
        ensures
            r == SupportStatus::parse(value@),
    {
        if str_eq(value, "Open") {
            Some(SupportStatus::Open)
        } else if str_eq(value, "InProgress") {
            Some(SupportStatus::InProgress)
        } else if str_eq(value, "Resolved") {
            Some(SupportStatus::Resolved)
        } else if str_eq(value, "Cancelled") {
            Some(SupportStatus::Cancelled)
        } else {
            None
        }
    }

    /// The name of the status.
    pub fn to_string(&self) -> (r: String)
        ensures
            r@ == self.name(),
    {
        match self {
            SupportStatus::Open => String::from_str("Open"),
            SupportStatus::InProgress => String::from_str("InProgress"),
            SupportStatus::Resolved => String::from_str("Resolved"),
            SupportStatus::Cancelled => String::from_str("Cancelled"),
        }
    }

    /// The status named by `s`; else the text `Invalid status: ` followed by `s`.
    pub fn parse_text(s: &str) -> (r: Result<SupportStatus, String>)
        ensures
            SupportStatus::parse(s@) is Some ==> r == Ok::<SupportStatus, String>(
                SupportStatus::parse(s@).unwrap(),
            ),
            SupportStatus::parse(s@) is None ==> r is Err && r->Err_0@ == "Invalid status: "@
                + s@,
    {
        match SupportStatus::from_string(s) {
            Some(v) => Ok(v),
            None => Err(crate::text::cat("Invalid status: ", s)),
        }
    }
}

/// Accepts the move of a complaint from `current` to `next` where it is allowed;
/// else the error names both statuses.
pub fn validate_transition(current: &SupportStatus, next: &SupportStatus) -> (r: Result<
    (),
    DomainError,
>)
    ensures
        r is Ok <==> SupportStatus::can_move(*current, *next),
        r is Err ==> r == Err::<(), DomainError>(
            DomainError::InvalidSupportStatusTransition { from: *current, to: *next },
        ),
{
    let allowed = match current {
        SupportStatus::Open => *next == SupportStatus::InProgress || *next
            == SupportStatus::Resolved || *next == SupportStatus::Cancelled,
        SupportStatus::InProgress => *next == SupportStatus::Resolved || *next
            == SupportStatus::Cancelled,
        SupportStatus::Resolved => false,
        SupportStatus::Cancelled => false,
    };
    if !allowed {
        return Err(DomainError::InvalidSupportStatusTransition { from: *current, to: *next });
    }
    Ok(())
}

/// The place of a status along the handling of a complaint.
pub open spec fn stage(s: SupportStatus) -> int {
    match s {
        SupportStatus::Open => 0,
        SupportStatus::InProgress => 1,
        SupportStatus::Resolved => 2,
        SupportStatus::Cancelled => 2,
    }
}

/// Every allowed move goes strictly forward, so a complaint never returns to a
/// status that it has left.
pub proof fn lemma_moves_go_forward(from: SupportStatus, to: SupportStatus)
    requires
        SupportStatus::can_move(from, to),
    ensures
        stage(from) < stage(to),
{
}

/// A resolved or cancelled complaint can move nowhere.
pub proof fn lemma_final_statuses(to: SupportStatus)
    ensures
        !SupportStatus::can_move(SupportStatus::Resolved, to),
        !SupportStatus::can_move(SupportStatus::Cancelled, to),
{
}

/// Reading back the name of a status gives the status.
pub proof fn lemma_name_round_trip(s: SupportStatus)
    ensures
        SupportStatus::parse(s.name()) == Some(s),
{
    reveal_strlit("Open");
    reveal_strlit("InProgress");
    reveal_strlit("Resolved");
    reveal_strlit("Cancelled");
    assert("Open"@.len() == 4 && "Open"@[0] == 'O');
    assert("InProgress"@.len() == 10 && "InProgress"@[0] == 'I');
    assert("Resolved"@.len() == 8 && "Resolved"@[0] == 'R');
    assert("Cancelled"@.len() == 9 && "Cancelled"@[0] == 'C');
}

impl std::str::FromStr for SupportStatus {
    type Err = String;

    fn from_str(s: &str) -> (r: Result<SupportStatus, String>)
        ensures
            SupportStatus::parse(s@) is Some ==> r == Ok::<SupportStatus, String>(SupportStatus::parse(s@).unwrap()),
            SupportStatus::parse(s@) is None ==> r is Err && r->Err_0@ == "Invalid status: "@ + s@,
    {
        SupportStatus::parse_text(s)
    }
}

} // verus!
