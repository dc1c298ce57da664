//! The rules that the user service applies between its calls to storage.
use vstd::prelude::*;

use crate::clock::clock_reading;
use crate::error::DomainError;
use crate::user::{bcrypt_check, bcrypt_error_text, user_errors, User, UserCommand, UserInput, UserView};
use crate::user_status::{UserRole, UserStatus};
use crate::text::views;

verus! {

/// The account found under an identifier, or the error that names it.
pub fn user_by_id(found: Option<User>, id: u128) -> (r: Result<User, DomainError>)
    ensures
        found is Some ==> r is Ok && r->Ok_0@ == found->0@,
        found is None ==> r is Err && r->Err_0 == (DomainError::UserNotFoundWithId { id }),
{
    match found {
        Some(u) => Ok(u),
        None => Err(DomainError::UserNotFoundWithId { id }),
    }
}

/// The account found under an email address, or the error that names it.
pub fn user_by_email(found: Option<User>, email: &str) -> (r: Result<User, DomainError>)
    ensures
        found is Some ==> r is Ok && r->Ok_0@ == found->0@,
        found is None ==> r is Err && (r->Err_0 matches DomainError::UserNotFound { email: e }
            && e@ == email@),
{
    match found {
        Some(u) => Ok(u),
        None => Err(DomainError::UserNotFound { email: String::from_str(email) }),
    }
}

/// A deletion that touched no row means the account did not exist.
pub fn user_deletion(affected: u64, id: u128) -> (r: Result<(), DomainError>)
    ensures
        affected == 0 ==> r is Err && r->Err_0 == (DomainError::UserNotFoundWithId { id }),
        affected != 0 ==> r is Ok,
{
    if affected == 0 {
        Err(DomainError::UserNotFoundWithId { id })
    } else {
        Ok(())
    }
}

/// A new account for the request, once its password was hashed: refused where
/// the email address is taken, then where hashing failed, then where the
/// account is invalid (see `User::create_user`; the hash is what is checked and
/// stored).
pub fn new_account(
    cmd: &UserCommand,
    email_taken: bool,
    hashed: Result<String, bcrypt::BcryptError>,
) -> (r: Result<User, DomainError>)
    ensures
        email_taken ==> r is Err && (r->Err_0 matches DomainError::UserWithEmailAlreadyExist {
            email,
        } && email@ == cmd.email@),
        !email_taken && hashed is Err ==> r is Err && r->Err_0 is Internal,
        !email_taken && hashed is Ok ==> ({
            let errs = user_errors(cmd.name@, cmd.email@, hashed->Ok_0@);
            &&& errs.len() > 0 ==> r is Err && (r->Err_0 matches DomainError::ValidationError(v)
                && views(v@) == errs)
            &&& errs.len() == 0 ==> r is Ok && ({
                let u = r->Ok_0@;
                &&& u.id != 0
                &&& u.name == cmd.name@
                &&& u.email == cmd.email@
                &&& u.hash_password == hashed->Ok_0@
                &&& u.phone_number == cmd.phone_number@
                &&& u.role == cmd.role
                &&& u.status == UserStatus::Active
                &&& u.updated_at is None
                &&& clock_reading(u.created_at as int)
            })
        }),
{
    if email_taken {
        return Err(DomainError::UserWithEmailAlreadyExist { email: cmd.email() });
    }
    match hashed {
        Err(e) => Err(DomainError::Internal(bcrypt_error_text(&e))),
        Ok(h) => User::create_user(cmd.name(), cmd.email(), h, cmd.phone_number(), cmd.role()),
    }
}

/// Signing in: the account must exist, then be active, then the password must
/// match its hash (a malformed hash is an internal error).
pub fn authenticate(found: Option<User>, email: String, password: &str) -> (r: Result<
    User,
    DomainError,
>)
    ensures
        found is None ==> r is Err && (r->Err_0 matches DomainError::UserNotFound { email: e }
            && e@ == email@),
        found is Some && found->0@.status != UserStatus::Active ==> r is Err && r->Err_0
            == (DomainError::UserStatusIsNotActive { status: found->0@.status }),
        found is Some && found->0@.status == UserStatus::Active ==> ({
            let check = bcrypt_check(password@, found->0@.hash_password);
            &&& check is None ==> r is Err && r->Err_0 is Internal
            &&& check == Some(false) ==> r is Err && r->Err_0 == DomainError::InvalidCredentials
            &&& check == Some(true) ==> r is Ok && r->Ok_0@ == found->0@
        }),
{
    let user = match found {
        None => {
            return Err(DomainError::UserNotFound { email });
        },
        Some(u) => u,
    };
    if user.status() != UserStatus::Active {
        return Err(DomainError::UserStatusIsNotActive { status: user.status() });
    }
    match User::check_password(password, user.hash_password().as_str()) {
        Err(e) => Err(DomainError::Internal(bcrypt_error_text(&e))),
        Ok(false) => Err(DomainError::InvalidCredentials),
        Ok(true) => Ok(user),
    }
}

/// The account with the parts that the request gives and the others kept,
/// stamped with the current time as its update time.
pub fn merged_input(existing: &User, input: UserInput) -> (r: User)
    ensures
        r@ == (UserView {
            name: match input.name {
                Some(n) => n@,
                None => existing@.name,
            },
            email: match input.email {
                Some(n) => n@,
                None => existing@.email,
            },
            phone_number: match input.phone_number {
                Some(n) => n@,
                None => existing@.phone_number,
            },
            role: match input.role {
                Some(x) => x,
                None => existing@.role,
            },
            updated_at: r@.updated_at,
            ..existing@
        }),
        r@.updated_at is Some,
        clock_reading(r@.updated_at->0 as int),
{
    let name = match input.name {
        Some(n) => n,
        None => existing.name(),
    };
    let email = match input.email {
        Some(n) => n,
        None => existing.email(),
    };
    let phone = match input.phone_number {
        Some(n) => n,
        None => existing.phone_number(),
    };
    let role: UserRole = match input.role {
        Some(x) => x,
        None => existing.role(),
    };
    existing.update_user(name, email, phone, role)
}

} // verus!
