//! The role of a user and the status of an account.
use vstd::prelude::*;

use crate::text::str_eq;

verus! {

/// What a user is allowed to do.
#[derive(Debug, Clone, Copy, PartialEq, Eq, Hash, Structural)]
pub enum UserRole {
    Admin,
    CustomerSupportAgent,
    Recipient,
    Sender,
    ServiceProvider,
}

/// Whether an account may be used.
#[derive(Debug, Clone, Copy, PartialEq, Eq, Hash, Structural)]
pub enum UserStatus {
    Active,
    Suspended,
    Deleted,
}

impl UserRole {
    /// The name of the role, as it is written and read back.
    pub open spec fn name(self) -> Seq<char> {
        match self {
            UserRole::Admin => "Admin"@,
            UserRole::CustomerSupportAgent => "CustomerSupportAgent"@,
            UserRole::Recipient => "Recipient"@,
            UserRole::Sender => "Sender"@,
            UserRole::ServiceProvider => "ServiceProvider"@,
        }
    }

    /// The role that a text names, if it names one.
    pub open spec fn parse(s: Seq<char>) -> Option<UserRole> {
        if s == "Admin"@ {
            Some(UserRole::Admin)
        } else if s == "CustomerSupportAgent"@ {
            Some(UserRole::CustomerSupportAgent)
        } else if s == "Recipient"@ {
            Some(UserRole::Recipient)
        } else if s == "Sender"@ {
            Some(UserRole::Sender)
        } else if s == "ServiceProvider"@ {
            Some(UserRole::ServiceProvider)
        } else {
            None
        }
    }

    /// The role named by `roles`, or `None` where it names none.
    pub fn string_roles(roles: &str) -> (r: Option<UserRole>)
        ensures
            r == UserRole::parse(roles@),
    {
        if str_eq(roles, "Admin") {
            Some(UserRole::Admin)
        } else if str_eq(roles, "CustomerSupportAgent") {
            Some(UserRole::CustomerSupportAgent)
        } else if str_eq(roles, "Recipient") {
            Some(UserRole::Recipient)
        } else if str_eq(roles, "Sender") {
            Some(UserRole::Sender)
        } else if str_eq(roles, "ServiceProvider") {
            Some(UserRole::ServiceProvider)
        } else {
            None
        }
    }

    /// The name of the role.
    pub fn to_string(&self) -> (r: String)
        ensures
            r@ == self.name(),
    {
        match self {
            UserRole::Admin => String::from_str("Admin"),
            UserRole::CustomerSupportAgent => String::from_str("CustomerSupportAgent"),
            UserRole::Sender => String::from_str("Sender"),
            UserRole::ServiceProvider => String::from_str("ServiceProvider"),
            UserRole::Recipient => String::from_str("Recipient"),
        }
    }

    /// The role named by `s`; else the text `Invalid role: ` followed by `s`.
    pub fn parse_text(s: &str) -> (r: Result<UserRole, String>)
        ensures
            UserRole::parse(s@) is Some ==> r == Ok::<UserRole, String>(
                UserRole::parse(s@).unwrap(),
            ),
            UserRole::parse(s@) is None ==> r is Err && r->Err_0@ == "Invalid role: "@ + s@,
    {
        match UserRole::string_roles(s) {
            Some(v) => Ok(v),
            None => Err(crate::text::cat("Invalid role: ", s)),
        }
    }
}

impl UserStatus {
    /// The name of the status, as it is written and read back.
    pub open spec fn name(self) -> Seq<char> {
        match self {
            UserStatus::Active => "Active"@,
            UserStatus::Suspended => "Suspended"@,
            UserStatus::Deleted => "Deleted"@,
        }
    }

    /// The status that a text names, if it names one.
    pub open spec fn parse(s: Seq<char>) -> Option<UserStatus> {
        if s == "Active"@ {
            Some(UserStatus::Active)
        } else if s == "Suspended"@ {
            Some(UserStatus::Suspended)
        } else if s == "Deleted"@ {
            Some(UserStatus::Deleted)
        } else {
            None
        }
    }

    /// The status named by `value`, or `None` where it names none.
    pub fn from_string(value: &str) -> (r: Option<UserStatus>)
        ensures
            r == UserStatus::parse(value@),
    {
        if str_eq(value, "Active") {
            Some(UserStatus::Active)
        } else if str_eq(value, "Suspended") {
            Some(UserStatus::Suspended)
        } else if str_eq(value, "Deleted") {
            Some(UserStatus::Deleted)
        } else {
            None
        }
    }

    /// The name of the status.
    pub fn to_string(&self) -> (r: String)
        ensures
            r@ == self.name(),
    {
        match self {
            UserStatus::Active => String::from_str("Active"),
            UserStatus::Suspended => String::from_str("Suspended"),
            UserStatus::Deleted => String::from_str("Deleted"),
        }
    }

    /// The status named by `s`; else the text `Invalid status: ` followed by `s`.
    pub fn parse_text(s: &str) -> (r: Result<UserStatus, String>)
        ensures
            UserStatus::parse(s@) is Some ==> r == Ok::<UserStatus, String>(
                UserStatus::parse(s@).unwrap(),
            ),
            UserStatus::parse(s@) is None ==> r is Err && r->Err_0@ == "Invalid status: "@ + s@,
    {
        match UserStatus::from_string(s) {
            Some(v) => Ok(v),
            None => Err(crate::text::cat("Invalid status: ", s)),
        }
    }
}

/// Reading back the name of a role gives the role.
pub proof fn lemma_role_name_round_trip(r: UserRole)
    ensures
        UserRole::parse(r.name()) == Some(r),
{
    reveal_strlit("Admin");
    reveal_strlit("CustomerSupportAgent");
    reveal_strlit("Recipient");
    reveal_strlit("Sender");
    reveal_strlit("ServiceProvider");
    assert("Admin"@.len() == 5 && "Admin"@[0] == 'A');
    assert("CustomerSupportAgent"@.len() == 20 && "CustomerSupportAgent"@[0] == 'C');
    assert("Recipient"@.len() == 9 && "Recipient"@[0] == 'R');
    assert("Sender"@.len() == 6 && "Sender"@[0] == 'S');
    assert("ServiceProvider"@.len() == 15 && "ServiceProvider"@[0] == 'S');
}

/// Reading back the name of a status gives the status.
pub proof fn lemma_status_name_round_trip(s: UserStatus)
    ensures
        UserStatus::parse(s.name()) == Some(s),
{
    reveal_strlit("Active");
    reveal_strlit("Suspended");
    reveal_strlit("Deleted");
    assert("Active"@.len() == 6 && "Active"@[0] == 'A');
    assert("Suspended"@.len() == 9 && "Suspended"@[0] == 'S');
    assert("Deleted"@.len() == 7 && "Deleted"@[0] == 'D');
}

impl std::str::FromStr for UserRole {
    type Err = String;

    fn from_str(s: &str) -> (r: Result<UserRole, String>)
        ensures
            UserRole::parse(s@) is Some ==> r == Ok::<UserRole, String>(UserRole::parse(s@).unwrap()),
            UserRole::parse(s@) is None ==> r is Err && r->Err_0@ == "Invalid role: "@ + s@,
    {
        UserRole::parse_text(s)
    }
}

impl std::str::FromStr for UserStatus {
    type Err = String;

    fn from_str(s: &str) -> (r: Result<UserStatus, String>)
        ensures
            UserStatus::parse(s@) is Some ==> r == Ok::<UserStatus, String>(UserStatus::parse(s@).unwrap()),
            UserStatus::parse(s@) is None ==> r is Err && r->Err_0@ == "Invalid status: "@ + s@,
    {
        UserStatus::parse_text(s)
    }
}

} // verus!
