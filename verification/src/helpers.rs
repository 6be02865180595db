use vstd::prelude::*;

verus! {

/// `std::time::SystemTime`: a reading of the wall clock, handed on unread.
#[verifier::external_type_specification]
#[verifier::external_body]
pub struct ExSystemTime(std::time::SystemTime);

/// `std::time::SystemTimeError`: what a clock that stands before 1970
/// gives; only its presence is looked at.
#[verifier::external_type_specification]
#[verifier::external_body]
pub struct ExSystemTimeError(std::time::SystemTimeError);

/// Reads the wall clock with `std::time::SystemTime::now`. Nothing is
/// claimed of what it shows.
#[verifier::external_body]
fn wall_clock() -> (now: std::time::SystemTime) {
    std::time::SystemTime::now()
}

/// Measures with `std::time::SystemTime::duration_since` how far `time`
/// lies after the start of 1970 (UTC); the error comes where it lies
/// before. Nothing is claimed of the measure.
#[verifier::external_body]
fn since_epoch(time: &std::time::SystemTime) -> (elapsed: Result<
    std::time::Duration,
    std::time::SystemTimeError,
>) {
    time.duration_since(std::time::UNIX_EPOCH)
}

/// The whole milliseconds in `span`, by `std::time::Duration::as_millis`.
/// Nothing is claimed of their number.
#[verifier::external_body]
fn whole_millis(span: &std::time::Duration) -> (millis: u128) {
    span.as_millis()
}

/// The timestamp that stands for `millis` milliseconds since the start of
/// 1970: their number, cut to its low 64 bits.
pub open spec fn timestamp_of(millis: u128) -> u64 {
    (millis % 0x1_0000_0000_0000_0000) as u64
}

/// Turns a count of milliseconds since the start of 1970 into a timestamp.
pub fn timestamp_from_millis(millis: u128) -> (timestamp: u64)
    ensures
        timestamp == timestamp_of(millis),
{
    assert(millis as u64 == millis % 0x1_0000_0000_0000_0000) by (bit_vector);
    #[verifier::truncate]
    (millis as u64)
}

/// The whole seconds in a timestamp of milliseconds: the unit in which a
/// raffle keeps its deadline.
pub fn unix_seconds(timestamp: u64) -> (seconds: i64)
    ensures
        seconds == timestamp / 1000,
{
    (timestamp / 1000) as i64
}

/// The time on the wall clock, in milliseconds since the start of 1970, or
/// `None` for a clock that stands before 1970 and so has no such time.
///
/// A reading is whatever the clock shows: it is [`timestamp_of`] some count
/// of milliseconds, and nothing more is known of it.
pub fn get_unix_timestamp() -> (timestamp: Option<u64>)
    ensures
        timestamp matches Some(t) ==> exists|millis: u128| t == #[trigger] timestamp_of(millis),
{
    let now = wall_clock();
    match since_epoch(&now) {
        Ok(elapsed) => Some(timestamp_from_millis(whole_millis(&elapsed))),
        Err(_) => None,
    }
}

} // verus!
