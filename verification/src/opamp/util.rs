//! The clock and fresh identifiers.
use std::time::{Duration, SystemTime};
use vstd::prelude::*;

verus! {

#[verifier::external_type_specification]
#[verifier::external_body]
pub struct ExSystemTime(std::time::SystemTime);

#[verifier::external_type_specification]
#[verifier::external_body]
pub struct ExUlid(ulid::Ulid);

/// The number of characters of an identifier in its canonical text.
pub const ULID_LEN: usize = 26;

/// `SystemTime::now` of std: the reading of the wall clock. Nothing is claimed
/// of it.
#[verifier::external_body]
fn system_now() -> SystemTime {
    SystemTime::now()
}

/// `SystemTime::duration_since` of std, taken from the Unix epoch: the time
/// elapsed since then, or nothing where the clock stands before it.
#[verifier::external_body]
fn since_unix_epoch(t: &SystemTime) -> Option<Duration> {
    t.duration_since(std::time::UNIX_EPOCH).ok()
}

/// `Duration::as_nanos` of std: the whole duration in nanoseconds.
#[verifier::external_body]
fn whole_nanos(d: &Duration) -> u128 {
    d.as_nanos()
}

/// `ulid::Generator::generate_from_datetime_with_source`, on a new generator
/// and with the thread's random number generator of `rand`: an identifier
/// stamped `at` with fresh random bits. A new generator has no earlier
/// identifier to overflow from; should it report that all the same, the nil
/// identifier stands in. Nothing is claimed of the result.
#[verifier::external_body]
fn fresh_ulid(at: SystemTime) -> ulid::Ulid {
    let mut source = rand::thread_rng();
    match ulid::Generator::new().generate_from_datetime_with_source(at, &mut source) {
        Ok(id) => id,
        Err(_) => ulid::Ulid::nil(),
    }
}

/// `ulid::Ulid::to_string`: the canonical text of an identifier, which the
/// crate documents as 26 characters of Crockford's base 32.
#[verifier::external_body]
pub(crate) fn ulid_text(id: &ulid::Ulid) -> (text: String)
    ensures
        text@.len() == ULID_LEN,
{
    id.to_string()
}

/// The reading of a clock on which `elapsed` nanoseconds have passed since
/// the Unix epoch; 0 for a clock that stands before the epoch.
pub fn nanos_since_epoch(elapsed: Option<u128>) -> (nanos: u128)
    ensures
        nanos == match elapsed {
            Some(n) => n,
            None => 0,
        },
{
    match elapsed {
        Some(n) => n,
        None => 0,
    }
}

/// The nanoseconds since the Unix epoch on the wall clock; 0 on a clock that
/// stands before the epoch.
pub fn get_time_nanos() -> u128 {
    let now = system_now();
    let elapsed = match since_unix_epoch(&now) {
        Some(elapsed) => Some(whole_nanos(&elapsed)),
        None => None,
    };
    nanos_since_epoch(elapsed)
}

/// A fresh identifier: the current time in its leading bits, random bits after
/// them.
pub fn generate_ulid() -> ulid::Ulid {
    fresh_ulid(system_now())
}

} // verus!
