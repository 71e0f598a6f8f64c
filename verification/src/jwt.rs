//! The claims carried by access tokens, the signing secret and the
//! `Authorization` header.

use vstd::prelude::*;
use vstd::string::*;
use crate::stamps::unix_time_secs;
use crate::text::{chars_of, string_from_chars};

verus! {

/// How long a token stays valid: 8 hours, in seconds.
pub const TOKEN_LIFETIME_SECS: usize = 28800;

/// The claims of an access token.
pub struct Claims {
    /// The user's id.
    pub sub: String,
    pub email: String,
    pub role: String,
    /// Expiry, in seconds since the Unix epoch.
    pub exp: usize,
}

/// The claims of a token issued at `now` (seconds since the epoch) for the
/// given user: they expire 8 hours later.
pub fn claims_at(user_id: &str, email: &str, role: &str, now: usize) -> (c: Claims)
    requires
        now <= usize::MAX - TOKEN_LIFETIME_SECS,
    ensures
        c.sub@ == user_id@,
        c.email@ == email@,
        c.role@ == role@,
        c.exp == now + TOKEN_LIFETIME_SECS,
{
    Claims {
        sub: String::from_str(user_id),
        email: String::from_str(email),
        role: String::from_str(role),
        exp: now + TOKEN_LIFETIME_SECS,
    }
}

/// The claims of a token issued for the given user at the clock reading
/// `now` (whole seconds since the epoch): `None` when there is no reading
/// (the clock is before the epoch) or when the expiry 8 hours later does not
/// fit in a `usize`; otherwise the claims of [`claims_at`].
pub fn claims_from_clock(user_id: &str, email: &str, role: &str, now: Option<u64>) -> (r: Option<
    Claims,
>)
    ensures
        match now {
            None => r is None,
            Some(t) => if t > usize::MAX - TOKEN_LIFETIME_SECS {
                r is None
            } else {
                r matches Some(c) && c.sub@ == user_id@ && c.email@ == email@ && c.role@ == role@
                    && c.exp == t + TOKEN_LIFETIME_SECS
            },
        },
{
    match now {
        Some(t) => {
            let limit: usize = usize::MAX - TOKEN_LIFETIME_SECS;
            if t > limit as u64 {
                None
            } else {
                Some(claims_at(user_id, email, role, t as usize))
            }
        },
        None => None,
    }
}

/// The claims of a token issued now for the given user: those of
/// [`claims_from_clock`] for the system clock's reading, which the contract
/// cannot know; `None` when the clock reads a time before the epoch or too
/// late for the expiry to be represented.
pub fn token_claims(user_id: &str, email: &str, role: &str) -> (r: Option<Claims>)
    ensures
        r matches Some(c) ==> {
            &&& c.sub@ == user_id@
            &&& c.email@ == email@
            &&& c.role@ == role@
            &&& c.exp >= TOKEN_LIFETIME_SECS
        },
{
    claims_from_clock(user_id, email, role, unix_time_secs())
}

/// The secret used when none is configured.
pub open spec fn default_jwt_secret() -> Seq<char> {
    "cityissue_super_secret_key_2026_change_in_prod"@
}

/// The signing secret: the configured one, or else the built-in default.
pub fn jwt_secret(configured: Option<String>) -> (r: String)
    ensures
        r@ == match configured {
            Some(s) => s@,
            None => default_jwt_secret(),
        },
{
    match configured {
        Some(s) => s,
        None => String::from_str("cityissue_super_secret_key_2026_change_in_prod"),
    }
}

/// `Bearer ` followed by a space, the scheme that an `Authorization` header
/// carrying a token starts with.
pub open spec fn bearer_prefix() -> Seq<char> {
    seq!['B', 'e', 'a', 'r', 'e', 'r', ' ']
}

/// Whether `header` starts with the bearer prefix.
pub open spec fn has_bearer_prefix(header: Seq<char>) -> bool {
    header.len() >= 7 && header.subrange(0, 7) == bearer_prefix()
}

/// The token of an `Authorization` header: what follows `Bearer `, or `None`
/// when the header does not start so.
pub fn bearer_token(header: &str) -> (r: Option<String>)
    ensures
        match r {
            Some(t) => has_bearer_prefix(header@) && t@ == header@.subrange(7, header@.len() as int),
            None => !has_bearer_prefix(header@),
        },
{
    let v = chars_of(header);
    if v.len() < 7 || v[0] != 'B' || v[1] != 'e' || v[2] != 'a' || v[3] != 'r' || v[4] != 'e'
        || v[5] != 'r' || v[6] != ' ' {
        proof {
            if has_bearer_prefix(header@) {
                assert(header@.subrange(0, 7)[0] == 'B');
                assert(header@.subrange(0, 7)[1] == 'e');
                assert(header@.subrange(0, 7)[2] == 'a');
                assert(header@.subrange(0, 7)[3] == 'r');
                assert(header@.subrange(0, 7)[4] == 'e');
                assert(header@.subrange(0, 7)[5] == 'r');
                assert(header@.subrange(0, 7)[6] == ' ');
            }
        }
        return None;
    }
    assert(header@.subrange(0, 7) =~= bearer_prefix());
    let mut rest: Vec<char> = Vec::new();
    let mut i: usize = 7;
    while i < v.len()
        invariant
            v@ == header@,
            7 <= i <= v.len(),
            rest@ == v@.subrange(7, i as int),
        decreases v.len() - i,
    {
        rest.push(v[i]);
        i = i + 1;
    }
    Some(string_from_chars(&rest))
}

} // verus!
