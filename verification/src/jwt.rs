//! The claims of the access tokens handed out at sign-in.
use vstd::prelude::*;

use crate::clock::{clock_seconds, now_seconds, EARLIEST_INSTANT, LATEST_INSTANT};
use crate::ids::{uuid_hyphenated, uuid_text};
use crate::user::{User, UserView};
use crate::user_status::UserRole;

verus! {

/// The largest expiry, in minutes, that `chrono` turns into a duration
/// (`i64::MAX` milliseconds).
pub const MAX_EXPIRY_MINUTES: i64 = 153_722_867_280_912;

/// The first second, counted from the Unix epoch, that `chrono` represents:
/// -262143-01-01 00:00:00, the first day of its first year.
pub const TOKEN_EARLIEST_END: i64 = -8_334_601_228_800;

/// The last second, counted from the Unix epoch, that `chrono` represents:
/// 262142-12-31 23:59:59, the last day of its last year. A token's end past
/// either bound makes `chrono`'s addition overflow.
pub const TOKEN_LATEST_END: i64 = 8_210_266_876_799;

/// What a token says of its holder: the account's identifier (`sub`), email,
/// name and role, when it was issued (`iat`) and when it expires (`exp`), both
/// in seconds since the Unix epoch.
#[derive(Debug, Clone)]
pub struct JwtClaims {
    pub sub: String,
    pub email: String,
    pub name: String,
    pub role: UserRole,
    pub iat: usize,
    pub exp: usize,
}

/// The claims are those of a token for the account `user` issued at `now`
/// that lasts `expiry` minutes.
pub open spec fn claims_of(c: JwtClaims, user: UserView, now: int, expiry: int) -> bool {
    &&& c.sub@ == uuid_hyphenated(user.id)
    &&& c.email@ == user.email
    &&& c.name@ == user.name
    &&& c.role == user.role
    &&& c.iat == now as usize
    &&& c.exp == (now + 60 * expiry) as usize
}

/// A token lasts exactly its expiry: it ends `60 * expiry` seconds after it
/// was issued (where both instants are after the Unix epoch and fit a
/// `usize`).
pub proof fn lemma_token_lifetime(c: JwtClaims, user: UserView, now: int, expiry: int)
    requires
        claims_of(c, user, now, expiry),
        0 <= now <= usize::MAX,
        0 <= now + 60 * expiry <= usize::MAX,
    ensures
        c.exp == c.iat + 60 * expiry,
{
}

/// Issues tokens signed with a secret that last a number of minutes.
#[derive(Debug)]
pub struct JwtService {
    secret: String,
    expiry_minutes: i64,
}

impl JwtService {
    pub closed spec fn secret_view(&self) -> Seq<char> {
        self.secret@
    }

    pub closed spec fn expiry(&self) -> i64 {
        self.expiry_minutes
    }

    pub fn new(secret: String, expiry_minutes: i64) -> (r: JwtService)
        ensures
            r.secret_view() == secret@,
            r.expiry() == expiry_minutes,
    {
        JwtService { secret, expiry_minutes }
    }

    /// The secret that signs the tokens.
    pub fn secret(&self) -> (r: &str)
        ensures
            r@ == self.secret_view(),
    {
        self.secret.as_str()
    }

    pub fn expiry_minutes(&self) -> (r: i64)
        ensures
            r == self.expiry(),
    {
        self.expiry_minutes
    }

    /// The expiry fits a duration and the token's end falls within the dates
    /// that `chrono` represents, for a token issued at `now`.
    pub open spec fn expiry_fits(&self, now: int) -> bool {
        &&& -MAX_EXPIRY_MINUTES <= self.expiry() <= MAX_EXPIRY_MINUTES
        &&& TOKEN_EARLIEST_END <= now + 60 * self.expiry() <= TOKEN_LATEST_END
    }

    /// The claims of a token for `user` issued at `now` (seconds since the Unix
    /// epoch): the times are cast to `usize` as `timestamp() as usize` does.
    pub fn claims_at(&self, user: &User, now: i64) -> (r: JwtClaims)
        requires
            self.expiry_fits(now as int),
        ensures
            r.sub@ == uuid_hyphenated(user@.id),
            r.email@ == user@.email,
            r.name@ == user@.name,
            r.role == user@.role,
            r.iat == now as usize,
            r.exp == (now + 60 * self.expiry()) as usize,
    {
        let end = now + 60 * self.expiry_minutes;
        JwtClaims {
            sub: uuid_text(user.id()),
            email: user.email(),
            name: user.name(),
            role: user.role(),
            iat: #[verifier::truncate] (now as usize),
            exp: #[verifier::truncate] (end as usize),
        }
    }

    /// The claims of a token for `user` issued at `now`, where the expiry fits
    /// (see `expiry_fits`); `None` where it does not, the case where the token
    /// cannot be made.
    pub fn claims_for(&self, user: &User, now: i64) -> (r: Option<JwtClaims>)
        ensures
            r is Some <==> self.expiry_fits(now as int),
            r is Some ==> claims_of(r->0, user@, now as int, self.expiry() as int),
    {
        if self.expiry_minutes < -MAX_EXPIRY_MINUTES || self.expiry_minutes > MAX_EXPIRY_MINUTES {
            return None;
        }
        let end = now as i128 + 60 * (self.expiry_minutes as i128);
        if end < TOKEN_EARLIEST_END as i128 || end > TOKEN_LATEST_END as i128 {
            return None;
        }
        Some(self.claims_at(user, now))
    }

    /// The claims of a token for `user` issued now: those of `claims_for` at the
    /// instant that the clock reads.
    pub fn generate_claims(&self, user: &User) -> (r: Option<JwtClaims>)
        ensures
            exists|now: int|
                #![trigger clock_seconds(now)]
                clock_seconds(now) && EARLIEST_INSTANT / 1_000_000 <= now <= LATEST_INSTANT
                    / 1_000_000 && (r is Some
                    <==> self.expiry_fits(now)) && (r is Some ==> claims_of(
                    r->0,
                    user@,
                    now,
                    self.expiry() as int,
                )),
    {
        let now = now_seconds();
        let r = self.claims_for(user, now);
        assert(clock_seconds(now as int) && (self.expiry_fits(now as int) == r is Some));
        r
    }
}

} // verus!
