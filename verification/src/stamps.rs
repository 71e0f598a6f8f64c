//! Fresh identifiers and the current time.

use vstd::prelude::*;

verus! {

/// `[0-9a-f]`
pub open spec fn is_lower_hex_digit(c: char) -> bool {
    ('0' <= c <= '9') || ('a' <= c <= 'f')
}

/// The hyphenated lower-case text of a random (version 4) UUID:
/// `xxxxxxxx-xxxx-4xxx-yxxx-xxxxxxxxxxxx`, with `y` one of `8`, `9`, `a`, `b`.
pub open spec fn is_uuid_v4_text(s: Seq<char>) -> bool {
    &&& s.len() == 36
    &&& forall|k: int|
        0 <= k < 36 ==> if k == 8 || k == 13 || k == 18 || k == 23 {
            #[trigger] s[k] == '-'
        } else {
            is_lower_hex_digit(s[k])
        }
    &&& s[14] == '4'
    &&& (s[19] == '8' || s[19] == '9' || s[19] == 'a' || s[19] == 'b')
}

/// `uuid::Uuid::new_v4()`, as text. The value is random; the contract states
/// its shape: version 4, RFC 4122 variant, hyphenated, lower-case.
#[verifier::external_body]
pub(crate) fn new_uuid() -> (r: String)
    ensures
        is_uuid_v4_text(r@),
{
    uuid::Uuid::new_v4().to_string()
}

#[verifier::external_type_specification]
#[verifier::external_body]
pub struct ExSystemTime(std::time::SystemTime);

/// `SystemTime::now()`: the system clock's reading. It depends on the
/// clock, so the contract states nothing of it.
#[verifier::external_body]
fn system_now() -> (r: std::time::SystemTime) {
    std::time::SystemTime::now()
}

/// `t.duration_since(UNIX_EPOCH)` in whole seconds (`Duration::as_secs`),
/// `None` when `t` is before the epoch. `SystemTime` is opaque here, so the
/// contract states nothing of the result.
#[verifier::external_body]
fn seconds_since_epoch(t: &std::time::SystemTime) -> (r: Option<u64>) {
    match t.duration_since(std::time::UNIX_EPOCH) {
        Ok(d) => Some(d.as_secs()),
        Err(_) => None,
    }
}

/// `t` ends with the UTC offset `+00:00`, as RFC 3339 text of a UTC time does.
pub open spec fn ends_with_utc_offset(t: Seq<char>) -> bool {
    t.len() >= 6 && t.subrange(t.len() - 6, t.len() as int) == "+00:00"@
}

/// `chrono::DateTime::<Utc>::from(t).to_rfc3339()`: the reading `t` as RFC
/// 3339 text in UTC. The conversion handles readings before the epoch as
/// well; it panics only for a reading beyond the years chrono represents
/// (about 262,000 years from the epoch), which no system clock gives. The
/// contract states the UTC offset `+00:00` that `to_rfc3339` writes last
/// (`write_rfc3339` with `use_z` false); the date and time are not stated.
#[verifier::external_body]
fn rfc3339_of(t: &std::time::SystemTime) -> (r: String)
    ensures
        ends_with_utc_offset(r@),
{
    chrono::DateTime::<chrono::Utc>::from(*t).to_rfc3339()
}

/// The current time by the system clock as RFC 3339 text in UTC.
pub(crate) fn now_rfc3339() -> (r: String)
    ensures
        ends_with_utc_offset(r@),
{
    let now = system_now();
    rfc3339_of(&now)
}

/// Whole seconds since the Unix epoch by the system clock, `None` when the
/// clock reads a time before the epoch.
pub(crate) fn unix_time_secs() -> (r: Option<u64>) {
    let now = system_now();
    seconds_since_epoch(&now)
}

} // verus!
