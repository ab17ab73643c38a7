//! The token authority: which claims a token is issued with, when decoded
//! claims are accepted, and the swappable key material both rest on.
//!
//! Encoding and signature checking work on the serialized claims and happen
//! where the claims are serialized; this module decides everything else.

use vstd::prelude::*;

verus! {

/// The payload of a signed token.
pub struct JwtClaims {
    /// The user name.
    pub sub: String,
    /// Expiry, in seconds since the Unix epoch.
    pub exp: u64,
    /// A random token identifier.
    pub jti: String,
    /// The numeric user id.
    pub user_id: i32,
}

/// The stored settings of the token authority.
pub struct JwtServiceSettings {
    pub secret: String,
    pub audience: String,
    /// Validity of an issued token, in seconds.
    pub expire: u64,
}

/// Validity of a token when no settings are stored: one hour.
pub const DEFAULT_EXPIRE: u64 = 3600;

impl Default for JwtServiceSettings {
    fn default() -> (r: JwtServiceSettings)
        ensures
            r.secret@ == Seq::<char>::empty(),
            r.audience@ == Seq::<char>::empty(),
            r.expire == DEFAULT_EXPIRE,
    {
        JwtServiceSettings { secret: String::new(), audience: String::new(), expire: DEFAULT_EXPIRE }
    }
}

/// The key material and validity window that tokens are issued and checked
/// against. It is never changed field by field, only replaced as a whole.
pub struct JwtServiceState {
    pub secret: String,
    pub audience: String,
    pub default_expire: u64,
}

impl JwtServiceState {
    pub fn new(secret: String, audience: String, default_expire: u64) -> (r: JwtServiceState)
        ensures
            r.secret == secret,
            r.audience == audience,
            r.default_expire == default_expire,
    {
        JwtServiceState { secret, audience, default_expire }
    }

    /// A copy with the same field values.
    pub fn snapshot(&self) -> (r: JwtServiceState)
        ensures
            r.secret@ == self.secret@,
            r.audience@ == self.audience@,
            r.default_expire == self.default_expire,
    {
        JwtServiceState {
            secret: self.secret.clone(),
            audience: self.audience.clone(),
            default_expire: self.default_expire,
        }
    }
}

impl From<JwtServiceSettings> for JwtServiceState {
    fn from(value: JwtServiceSettings) -> (r: JwtServiceState) {
        JwtServiceState::new(value.secret, value.audience, value.expire)
    }
}

impl vstd::std_specs::convert::FromSpecImpl<JwtServiceSettings> for JwtServiceState {
    open spec fn obeys_from_spec() -> bool {
        true
    }

    open spec fn from_spec(v: JwtServiceSettings) -> JwtServiceState {
        JwtServiceState { secret: v.secret, audience: v.audience, default_expire: v.expire }
    }
}

/// The identity a token is issued to.
pub struct User {
    pub id: i32,
    pub username: String,
}

/// Why a token was not accepted.
pub enum AuthError {
    InvalidToken,
}

/// The decimal digit for `d < 10`.
pub open spec fn digit_char(d: nat) -> char {
    if d == 0 { '0' }
    else if d == 1 { '1' }
    else if d == 2 { '2' }
    else if d == 3 { '3' }
    else if d == 4 { '4' }
    else if d == 5 { '5' }
    else if d == 6 { '6' }
    else if d == 7 { '7' }
    else if d == 8 { '8' }
    else { '9' }
}

/// The decimal notation of `n`, without sign or leading zeros.
pub open spec fn decimal(n: nat) -> Seq<char>
    decreases n,
{
    if n < 10 {
        seq![digit_char(n)]
    } else {
        decimal(n / 10).push(digit_char(n % 10))
    }
}

/// The one-character text of the digit `d`.
fn digit_str(d: u64) -> (r: &'static str)
    requires
        d < 10,
    ensures
        r@ == seq![digit_char(d as nat)],
{
    if d == 0 {
        proof {
            reveal_strlit("0");
        }
        "0"
    } else if d == 1 {
        proof {
            reveal_strlit("1");
        }
        "1"
    } else if d == 2 {
        proof {
            reveal_strlit("2");
        }
        "2"
    } else if d == 3 {
        proof {
            reveal_strlit("3");
        }
        "3"
    } else if d == 4 {
        proof {
            reveal_strlit("4");
        }
        "4"
    } else if d == 5 {
        proof {
            reveal_strlit("5");
        }
        "5"
    } else if d == 6 {
        proof {
            reveal_strlit("6");
        }
        "6"
    } else if d == 7 {
        proof {
            reveal_strlit("7");
        }
        "7"
    } else if d == 8 {
        proof {
            reveal_strlit("8");
        }
        "8"
    } else {
        proof {
            reveal_strlit("9");
        }
        "9"
    }
}

/// The decimal notation of `n` (see `decimal`).
pub(crate) fn decimal_string(n: u64) -> (r: String)
    ensures
        r@ == decimal(n as nat),
    decreases n,
{
    if n < 10 {
        digit_str(n).to_owned()
    } else {
        let mut s = decimal_string(n / 10);
        s.append(digit_str(n % 10));
        s
    }
}

/// Relies on chrono's conversion of `std::time::SystemTime::now()` into a
/// `DateTime<Utc>` and `DateTime::timestamp`: the current time in whole
/// seconds since the Unix epoch, negative for a clock set before it.
#[verifier::external_body]
fn unix_now() -> (r: i64) {
    chrono::DateTime::<chrono::Utc>::from(std::time::SystemTime::now()).timestamp()
}

/// Relies on `rand::rng` (a cryptographically secure generator, seeded per
/// thread) and `RngCore::next_u64`: a random 64-bit number.
#[verifier::external_body]
fn random_u64() -> (r: u64) {
    rand::RngCore::next_u64(&mut rand::rng())
}

/// The decimal notation of a random 64-bit number.
pub fn random_decimal() -> (r: String)
    ensures
        exists|n: u64| r@ == decimal(n as nat),
{
    decimal_string(random_u64())
}

/// The expiry of a token issued at `now`: `now + expire`, capped at the
/// largest representable time.
pub open spec fn expiry(now: u64, expire: u64) -> u64 {
    if now + expire > u64::MAX {
        u64::MAX
    } else {
        (now + expire) as u64
    }
}

/// `c` are the claims issued to `user` at `now` with token id `nonce`.
pub open spec fn issued_claims(c: JwtClaims, state: JwtServiceState, user: User, now: u64, nonce: u64) -> bool {
    &&& c.sub@ == user.username@
    &&& c.user_id == user.id
    &&& c.exp == expiry(now, state.default_expire)
    &&& c.jti@ == decimal(nonce as nat)
}

/// Claims are accepted at `now` while they have not expired: an expiry equal
/// to `now` counts as expired.
pub open spec fn unexpired(c: JwtClaims, now: u64) -> bool {
    c.exp > now
}

/// `r` is what `verify` gives for `decoded` at time `now`.
pub open spec fn verified_at(decoded: Option<JwtClaims>, now: u64, r: Result<JwtClaims, AuthError>) -> bool {
    &&& r is Ok <==> (decoded matches Some(c) && unexpired(c, now))
    &&& r matches Ok(c) ==> decoded == Some(c)
}

/// The token authority's current state.
pub struct JwtService {
    pub state: JwtServiceState,
}

impl JwtService {
    pub fn new(state: JwtServiceState) -> (r: JwtService)
        ensures
            r.state == state,
    {
        JwtService { state }
    }

    /// A copy of the current state.
    pub fn get_state(&self) -> (r: JwtServiceState)
        ensures
            r.secret@ == self.state.secret@,
            r.audience@ == self.state.audience@,
            r.default_expire == self.state.default_expire,
    {
        self.state.snapshot()
    }

    /// Replaces the state as a whole.
    pub fn set_state(&mut self, new_state: JwtServiceState)
        ensures
            final(self).state == new_state,
    {
        self.state = new_state;
    }

    /// The claims for `user` at time `now` with token id `nonce`.
    pub fn issue_claims(&self, user: &User, now: u64, nonce: u64) -> (r: JwtClaims)
        ensures
            issued_claims(r, self.state, *user, now, nonce),
    {
        let exp = if now > u64::MAX - self.state.default_expire {
            u64::MAX
        } else {
            now + self.state.default_expire
        };
        JwtClaims { sub: user.username.clone(), exp, jti: decimal_string(nonce), user_id: user.id }
    }

    /// The claims for `user`, issued now with a random token id.
    pub fn issue(&self, user: &User) -> (r: JwtClaims)
        ensures
            exists|now: u64, nonce: u64| issued_claims(r, self.state, *user, now, nonce),
    {
        let t = unix_now();
        let now: u64 = if t < 0 { 0 } else { t as u64 };
        let nonce = random_u64();
        self.issue_claims(user, now, nonce)
    }

    /// Accepts claims that a token decoded to (`None` when its encoding,
    /// signature or audience was rejected) if they are unexpired at `now`.
    pub fn verify(&self, decoded: Option<JwtClaims>, now: u64) -> (r: Result<JwtClaims, AuthError>)
        ensures
            r is Ok <==> (decoded matches Some(c) && unexpired(c, now)),
            r matches Ok(c) ==> decoded == Some(c),
    {
        match decoded {
            None => Err(AuthError::InvalidToken),
            Some(c) => {
                if c.exp > now {
                    Ok(c)
                } else {
                    Err(AuthError::InvalidToken)
                }
            },
        }
    }

    /// `verify` against the current time (a clock before the Unix epoch reads
    /// as the epoch).
    pub fn verify_now(&self, decoded: Option<JwtClaims>) -> (r: Result<JwtClaims, AuthError>)
        ensures
            exists|now: u64| #[trigger] verified_at(decoded, now, r),
    {
        let t = unix_now();
        let now: u64 = if t < 0 { 0 } else { t as u64 };
        let r = self.verify(decoded, now);
        assert(verified_at(decoded, now, r));
        r
    }
}

/// A token issued to `user` at `now` is accepted at every time `t` before its
/// validity window has passed, and carries the user's id. (The last
/// representable second is left out: an expiry capped there is reached.)
pub proof fn lemma_issue_then_verify(
    state: JwtServiceState,
    user: User,
    c: JwtClaims,
    now: u64,
    nonce: u64,
    t: u64,
)
    requires
        issued_claims(c, state, user, now, nonce),
        now <= t,
        t < now + state.default_expire,
        t < u64::MAX,
    ensures
        unexpired(c, t),
        c.user_id == user.id,
{
}

} // verus!
