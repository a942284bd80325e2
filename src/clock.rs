//! Time and identifier sources taken from outside crates.

use vstd::prelude::*;

verus! {

/// Relies on std's `SystemTime::now`, chrono's `From<SystemTime> for
/// DateTime<Utc>` (which reads a clock set before the epoch as a negative
/// time instead of failing) and `DateTime::timestamp_millis`: the system
/// clock as milliseconds since the Unix epoch. Nothing is promised of the
/// value; two reads may differ in any way.
#[verifier::external_body]
fn system_millis() -> (r: i64) {
    chrono::DateTime::<chrono::Utc>::from(std::time::SystemTime::now()).timestamp_millis()
}

/// The current wall-clock time in milliseconds since the epoch; a clock set
/// before the epoch reads as zero.
pub fn now_millis() -> (r: u64)
    ensures
        r <= i64::MAX as u64,
{
    let t = system_millis();
    if t < 0 {
        0
    } else {
        t as u64
    }
}

/// Whether `c` is a lower-case hexadecimal digit.
pub open spec fn is_lower_hex(c: char) -> bool {
    ('0' <= c && c <= '9') || ('a' <= c && c <= 'f')
}

/// Whether `s` has the hyphenated form of a UUID: 36 characters, hyphens at
/// positions 8, 13, 18 and 23, lower-case hex digits elsewhere.
pub open spec fn is_hyphenated_uuid(s: Seq<char>) -> bool {
    &&& s.len() == 36
    &&& forall|i: int|
        0 <= i < 36 ==> if i == 8 || i == 13 || i == 18 || i == 23 {
            #[trigger] s[i] == '-'
        } else {
            is_lower_hex(s[i])
        }
}

/// Relies on `uuid::Uuid::new_v4` and its `Display` impl, which writes the
/// hyphenated lower-case form: 32 hex digits in groups of 8, 4, 4, 4 and 12,
/// joined by hyphens.
#[verifier::external_body]
pub(crate) fn fresh_id() -> (r: String)
    ensures
        is_hyphenated_uuid(r@),
{
    uuid::Uuid::new_v4().to_string()
}

} // verus!
