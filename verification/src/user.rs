//! User accounts and their passwords.
use vstd::prelude::*;
use vstd::utf8::encode_utf8;

use crate::clock::{clock_reading, now_micros, EARLIEST_INSTANT, LATEST_INSTANT};
use crate::error::DomainError;
use crate::ids::fresh_id;
use crate::text::{blank, is_blank, listed_if, note, views};
use crate::user_status::{UserRole, UserStatus};

verus! {

#[verifier::external_type_specification]
#[verifier::external_body]
pub struct ExBcryptError(bcrypt::BcryptError);

/// What `bcrypt::verify` returns for a password and a stored hash: `Some` of
/// whether they match, or `None` where it fails (a malformed hash).
pub uninterp spec fn bcrypt_check(plain: Seq<char>, hash: Seq<char>) -> Option<bool>;

/// `bcrypt::hash(plain, DEFAULT_COST)`. The salt is random, so the hash is not
/// a function of the password; what the crate's source shows of a success is
/// that the text is 60 characters long and that `bcrypt::verify` accepts the
/// same password against it. It fails where the system gives no randomness.
#[verifier::external_body]
fn bcrypt_hash(plain: &str) -> (r: Result<String, bcrypt::BcryptError>)
    ensures
        r is Ok ==> r->Ok_0@.len() == 60 && bcrypt_check(plain@, r->Ok_0@) == Some(true),
{
    bcrypt::hash(plain, bcrypt::DEFAULT_COST)
}

/// `bcrypt::verify(plain, hash)`: whether the password matches the stored hash,
/// or an error where the hash is malformed, which a hash of other than 60
/// characters always is.
#[verifier::external_body]
fn bcrypt_verify(plain: &str, hash: &str) -> (r: Result<bool, bcrypt::BcryptError>)
    ensures
        r is Ok ==> bcrypt_check(plain@, hash@) == Some(r->Ok_0),
        r is Err ==> bcrypt_check(plain@, hash@) is None,
        hash@.len() != 60 ==> r is Err,
{
    bcrypt::verify(plain, hash)
}

/// `BcryptError`'s `Display`: the text of a hashing or checking failure. The
/// error is opaque here, so nothing is stated of the text.
#[verifier::external_body]
pub(crate) fn bcrypt_error_text(e: &bcrypt::BcryptError) -> (r: String) {
    e.to_string()
}

/// What a user account holds. Instants are microseconds since the Unix epoch.
pub struct UserView {
    pub id: u128,
    pub name: Seq<char>,
    pub email: Seq<char>,
    pub hash_password: Seq<char>,
    pub phone_number: Seq<char>,
    pub role: UserRole,
    pub status: UserStatus,
    pub created_at: i64,
    pub updated_at: Option<i64>,
}

/// A user account.
#[derive(Debug)]
pub struct User {
    id: u128,
    name: String,
    email: String,
    hash_password: String,
    phone_number: String,
    role: UserRole,
    status: UserStatus,
    created_at: i64,
    updated_at: Option<i64>,
}

/// The changes asked for an account; a part left out stays as it is.
#[derive(Debug)]
pub struct UserInput {
    pub name: Option<String>,
    pub email: Option<String>,
    pub phone_number: Option<String>,
    pub role: Option<UserRole>,
}

/// A request to open an account.
#[derive(Debug)]
pub struct UserCommand {
    pub name: String,
    pub email: String,
    pub password: String,
    pub phone_number: String,
    pub role: UserRole,
}

/// What is wrong with the parts of a new account, in order: name, email,
/// blank password, short password (under 8 bytes); empty where nothing is.
pub open spec fn user_errors(name: Seq<char>, email: Seq<char>, password: Seq<char>) -> Seq<
    Seq<char>,
> {
    listed_if(is_blank(name), "Name is required"@) + listed_if(
        is_blank(email),
        "Email address is required"@,
    ) + listed_if(is_blank(password), "Password must be provided"@) + listed_if(
        (encode_utf8(password).len() as usize) < 8,
        "Password must be at least 8 characters"@,
    )
}

impl UserCommand {
    pub fn new(
        name: String,
        email: String,
        password: String,
        phone_number: String,
        role: UserRole,
    ) -> (r: UserCommand)
        ensures
            r.name@ == name@,
            r.email@ == email@,
            r.password@ == password@,
            r.phone_number@ == phone_number@,
            r.role == role,
    {
        UserCommand { name, email, password, phone_number, role }
    }

    pub fn name(&self) -> (r: String)
        ensures
            r@ == self.name@,
    {
        self.name.clone()
    }

    pub fn email(&self) -> (r: String)
        ensures
            r@ == self.email@,
    {
        self.email.clone()
    }

    pub fn password(&self) -> (r: String)
        ensures
            r@ == self.password@,
    {
        self.password.clone()
    }

    pub fn phone_number(&self) -> (r: String)
        ensures
            r@ == self.phone_number@,
    {
        self.phone_number.clone()
    }

    pub fn role(&self) -> (r: UserRole)
        ensures
            r == self.role,
    {
        self.role
    }
}

impl View for User {
    type V = UserView;

    closed spec fn view(&self) -> UserView {
        UserView {
            id: self.id,
            name: self.name@,
            email: self.email@,
            hash_password: self.hash_password@,
            phone_number: self.phone_number@,
            role: self.role,
            status: self.status,
            created_at: self.created_at,
            updated_at: self.updated_at,
        }
    }
}

impl User {
    /// A new active account with a fresh identifier, stamped with the current
    /// time and never updated; `password` is stored as given (the caller hashes
    /// it first). Refused with the list of problems where the name, the email
    /// or the password is blank, or the password is shorter than 8 bytes.
    pub fn create_user(
        name: String,
        email: String,
        password: String,
        phone_number: String,
        role: UserRole,
    ) -> (r: Result<User, DomainError>)
        ensures
            ({
                let errs = user_errors(name@, email@, password@);
                &&& errs.len() > 0 ==> r is Err && (r->Err_0 matches DomainError::ValidationError(
                    v,
                ) && views(v@) == errs)
                &&& errs.len() == 0 ==> r is Ok && ({
                    let u = r->Ok_0@;
                    &&& u.id != 0
                    &&& u.name == name@
                    &&& u.email == email@
                    &&& u.hash_password == password@
                    &&& u.phone_number == phone_number@
                    &&& u.role == role
                    &&& u.status == UserStatus::Active
                    &&& u.updated_at is None
                    &&& EARLIEST_INSTANT <= u.created_at <= LATEST_INSTANT
                    &&& clock_reading(u.created_at as int)
                })
            }),
    {
        let mut errors: Vec<String> = Vec::new();
        note(&mut errors, blank(name.as_str()), String::from_str("Name is required"));
        note(&mut errors, blank(email.as_str()), String::from_str("Email address is required"));
        note(&mut errors, blank(password.as_str()), String::from_str("Password must be provided"));
        note(
            &mut errors,
            password.as_str().len() < 8,
            String::from_str("Password must be at least 8 characters"),
        );
        proof {
            assert(views(Seq::<String>::empty()) =~= Seq::<Seq<char>>::empty());
            assert(views(errors@) =~= user_errors(name@, email@, password@));
        }
        if errors.len() > 0 {
            return Err(DomainError::ValidationError(errors));
        }
        let now = now_micros();
        Ok(
            User {
                id: fresh_id(),
                name,
                email,
                hash_password: password,
                phone_number,
                role,
                status: UserStatus::Active,
                created_at: now,
                updated_at: None,
            },
        )
    }

    /// An account as it was stored.
    pub fn reconstitute(
        id: u128,
        name: String,
        email: String,
        hash_password: String,
        phone_number: String,
        role: UserRole,
        status: UserStatus,
        created_at: i64,
        updated_at: Option<i64>,
    ) -> (r: User)
        ensures
            r@ == (UserView {
                id,
                name: name@,
                email: email@,
                hash_password: hash_password@,
                phone_number: phone_number@,
                role,
                status,
                created_at,
                updated_at,
            }),
    {
        User {
            id,
            name,
            email,
            hash_password,
            phone_number,
            role,
            status,
            created_at,
            updated_at,
        }
    }

    /// The account with a new name, email, phone number and role, stamped with
    /// the current time as its update time; everything else as it was.
    pub fn update_user(&self, name: String, email: String, phone_number: String, role: UserRole) -> (r:
        User)
        ensures
            r@ == (UserView {
                name: name@,
                email: email@,
                phone_number: phone_number@,
                role,
                updated_at: r@.updated_at,
                ..self@
            }),
            r@.updated_at is Some,
            clock_reading(r@.updated_at->0 as int),
    {
        User {
            id: self.id,
            name,
            email,
            hash_password: self.hash_password.clone(),
            phone_number,
            role,
            status: self.status,
            created_at: self.created_at,
            updated_at: Some(now_micros()),
        }
    }

    /// The account with a new status, stamped with the current time as its
    /// update time; any status may follow any other.
    pub fn update_status(&self, next: UserStatus) -> (r: Result<User, DomainError>)
        ensures
            r is Ok,
            r->Ok_0@ == (UserView { status: next, updated_at: r->Ok_0@.updated_at, ..self@ }),
            r->Ok_0@.updated_at is Some,
            clock_reading(r->Ok_0@.updated_at->0 as int),
    {
        let now = now_micros();
        Ok(
            User {
                id: self.id,
                name: self.name.clone(),
                email: self.email.clone(),
                hash_password: self.hash_password.clone(),
                phone_number: self.phone_number.clone(),
                role: self.role,
                status: next,
                created_at: self.created_at,
                updated_at: Some(now),
            },
        )
    }

    /// The bcrypt hash of a password, with the default cost and a random salt;
    /// it is 60 characters long and the same password checks against it.
    pub fn hash_password_value(plain_password: String) -> (r: Result<String, bcrypt::BcryptError>)
        ensures
            r is Ok ==> r->Ok_0@.len() == 60 && bcrypt_check(plain_password@, r->Ok_0@) == Some(
                true,
            ),
    {
        bcrypt_hash(plain_password.as_str())
    }

    /// Whether `plain_password` matches the stored bcrypt hash; an error where the
    /// hash is malformed.
    pub fn check_password(plain_password: &str, hash_password: &str) -> (r: Result<
        bool,
        bcrypt::BcryptError,
    >)
        ensures
            r is Ok ==> bcrypt_check(plain_password@, hash_password@) == Some(r->Ok_0),
            r is Err ==> bcrypt_check(plain_password@, hash_password@) is None,
            hash_password@.len() != 60 ==> r is Err,
    {
        bcrypt_verify(plain_password, hash_password)
    }

    pub fn id(&self) -> (r: u128)
        ensures
            r == self@.id,
    {
        self.id
    }

    pub fn name(&self) -> (r: String)
        ensures
            r@ == self@.name,
    {
        self.name.clone()
    }

    pub fn email(&self) -> (r: String)
        ensures
            r@ == self@.email,
    {
        self.email.clone()
    }

    pub fn hash_password(&self) -> (r: String)
        ensures
            r@ == self@.hash_password,
    {
        self.hash_password.clone()
    }

    /// The stored password hash (the same as `hash_password`).
    pub fn password(&self) -> (r: String)
        ensures
            r@ == self@.hash_password,
    {
        self.hash_password.clone()
    }

    pub fn phone_number(&self) -> (r: String)
        ensures
            r@ == self@.phone_number,
    {
        self.phone_number.clone()
    }

    pub fn role(&self) -> (r: UserRole)
        ensures
            r == self@.role,
    {
        self.role
    }

    pub fn status(&self) -> (r: UserStatus)
        ensures
            r == self@.status,
    {
        self.status
    }

    pub fn created_at(&self) -> (r: i64)
        ensures
            r == self@.created_at,
    {
        self.created_at
    }

    pub fn updated_at(&self) -> (r: Option<i64>)
        ensures
            r == self@.updated_at,
    {
        self.updated_at
    }

    /// Sets the status and stamps the account with the current time as its
    /// update time.
    pub fn set_status(&mut self, status: UserStatus)
        ensures
            final(self)@ == (UserView {
                status,
                updated_at: final(self)@.updated_at,
                ..old(self)@
            }),
            final(self)@.updated_at is Some,
            clock_reading(final(self)@.updated_at->0 as int),
    {
        self.status = status;
        self.updated_at = Some(now_micros());
    }
}

impl Clone for User {
    fn clone(&self) -> (r: User)
        ensures
            r@ == self@,
    {
        User {
            id: self.id,
            name: self.name.clone(),
            email: self.email.clone(),
            hash_password: self.hash_password.clone(),
            phone_number: self.phone_number.clone(),
            role: self.role,
            status: self.status,
            created_at: self.created_at,
            updated_at: self.updated_at,
        }
    }
}

} // verus!
