//! The calls into `std`, `chrono` and `uuid` that the library cannot prove
//! anything about.  Each item below states what it assumes of the call it
//! makes; nothing else in the crate is trusted.

use crate::timestamp::Timestamp;
use vstd::prelude::*;

verus! {

/// What `str::to_lowercase` returns for a string (full Unicode lower-casing).
pub uninterp spec fn spec_to_lowercase(s: Seq<char>) -> Seq<char>;

/// What `str::to_uppercase` returns for a string (full Unicode upper-casing).
pub uninterp spec fn spec_to_uppercase(s: Seq<char>) -> Seq<char>;

/// What `uuid::Uuid::new_v5(&Uuid::NAMESPACE_URL, name.as_bytes())` renders to
/// in its hyphenated lower-case text form.
pub uninterp spec fn spec_uuid_v5_url(name: Seq<char>) -> Seq<char>;

/// What the `Display` of the version 4 UUID that `uuid::Builder::from_random_bytes`
/// makes of 16 bytes renders to.
pub uninterp spec fn spec_uuid_from_random(bytes: Seq<u8>) -> Seq<char>;

/// What `chrono::DateTime::parse_from_rfc3339` gives for a text, as the UTC
/// seconds and sub-second nanoseconds of the parsed instant; `None` when the
/// text is not RFC 3339.
pub uninterp spec fn spec_parse_rfc3339(s: Seq<char>) -> Option<(i64, u32)>;

/// What the `Display` of `chrono::DateTime<Utc>` renders for an instant
/// (empty when the instant is outside chrono's range).
pub uninterp spec fn spec_display_utc(secs: i64, nanos: u32) -> Seq<char>;

/// Calls `str::to_lowercase`.  Claims only that the result is the named
/// lower-casing of the argument; nothing is said of its characters.
#[verifier::external_body]
pub(crate) fn str_to_lowercase(s: &str) -> (r: String)
    ensures
        r@ == spec_to_lowercase(s@),
{
    s.to_lowercase()
}

/// Calls `str::to_uppercase`.  Claims only that the result is the named
/// upper-casing of the argument; nothing is said of its characters.
#[verifier::external_body]
pub(crate) fn str_to_uppercase(s: &str) -> (r: String)
    ensures
        r@ == spec_to_uppercase(s@),
{
    s.to_uppercase()
}

/// Calls `uuid::Uuid::new_v5` in the URL namespace on the bytes of `name` and
/// renders the UUID with its `Display` impl.  Claims that the text is the named
/// value for `name` (so equal names give equal texts) and that the hyphenated
/// form is 36 characters long.
#[verifier::external_body]
pub(crate) fn uuid_v5_url(name: &str) -> (r: String)
    ensures
        r@ == spec_uuid_v5_url(name@),
        r@.len() == 36,
{
    uuid::Uuid::new_v5(&uuid::Uuid::NAMESPACE_URL, name.as_bytes()).to_string()
}

/// Calls `uuid::Builder::from_random_bytes` on the given bytes (which sets the
/// version 4 and variant bits) and renders the UUID with its `Display` impl.
/// Claims that the text is the named value for the bytes and that the
/// hyphenated form is 36 characters long.
#[verifier::external_body]
pub(crate) fn uuid_from_random_bytes(bytes: [u8; 16]) -> (r: String)
    ensures
        r@ == spec_uuid_from_random(bytes@),
        r@.len() == 36,
{
    uuid::Builder::from_random_bytes(bytes).into_uuid().to_string()
}

/// `std::time::SystemTime`, an instant of the system clock.
#[verifier::external_type_specification]
#[verifier::external_body]
pub struct ExSystemTime(std::time::SystemTime);

/// Calls `SystemTime::now`.  Nothing is claimed of the instant read.
#[verifier::external_body]
pub(crate) fn system_now() -> (r: std::time::SystemTime) {
    std::time::SystemTime::now()
}

/// Calls `SystemTime::duration_since` with the Unix epoch; `None` stands for
/// its error, an instant before the epoch.  Nothing is claimed of the length.
#[verifier::external_body]
pub(crate) fn duration_since_epoch(t: &std::time::SystemTime) -> (r: Option<core::time::Duration>) {
    t.duration_since(std::time::UNIX_EPOCH).ok()
}

/// Calls `Duration::as_secs`: the whole seconds of a length.
#[verifier::external_body]
pub(crate) fn duration_secs(d: &core::time::Duration) -> (r: u64) {
    d.as_secs()
}

/// Calls `Duration::subsec_nanos`: the nanoseconds of a length past its whole
/// seconds, which std documents as always below one billion.
#[verifier::external_body]
pub(crate) fn duration_subsec_nanos(d: &core::time::Duration) -> (r: u32)
    ensures
        r < 1_000_000_000,
{
    d.subsec_nanos()
}

/// Calls `chrono::DateTime::<Utc>::from_timestamp` and tells whether it gives
/// an instant (`None` lies outside chrono's range, which ends near the year
/// 262143).  Claims that an instant it accepts lies before 10^13 seconds.
#[verifier::external_body]
pub(crate) fn chrono_accepts_timestamp(secs: i64, nanos: u32) -> (r: bool)
    ensures
        r ==> secs < 10_000_000_000_000,
{
    chrono::DateTime::<chrono::Utc>::from_timestamp(secs, nanos).is_some()
}

/// Calls `chrono::DateTime::parse_from_rfc3339` and converts the instant to UTC
/// seconds and nanoseconds.  Claims the result is the named parse of the text.
#[verifier::external_body]
pub(crate) fn parse_rfc3339_utc(s: &str) -> (r: Option<(i64, u32)>)
    ensures
        r == spec_parse_rfc3339(s@),
{
    match chrono::DateTime::parse_from_rfc3339(s) {
        Ok(dt) => Some((dt.timestamp(), dt.timestamp_subsec_nanos())),
        Err(_) => None,
    }
}

/// Renders an instant with the `Display` of `chrono::DateTime<Utc>`.  Claims
/// the text is the named rendering of the instant.
#[verifier::external_body]
pub(crate) fn display_utc(t: Timestamp) -> (r: String)
    ensures
        r@ == spec_display_utc(t.secs, t.nanos),
{
    match chrono::DateTime::<chrono::Utc>::from_timestamp(t.secs, t.nanos) {
        Some(dt) => dt.to_string(),
        None => String::new(),
    }
}

} // verus!
