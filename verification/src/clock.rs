//! Wall-clock time in Unix milliseconds.
use std::time::{Duration, SystemTime, SystemTimeError, UNIX_EPOCH};
use vstd::prelude::*;

verus! {

/// A reading of the system clock.
#[verifier::external_type_specification]
#[verifier::external_body]
pub struct ExSystemTime(SystemTime);

/// How far a reading of the clock lies before the one it is measured from.
#[verifier::external_type_specification]
#[verifier::external_body]
pub struct ExSystemTimeError(SystemTimeError);

/// The time from the Unix epoch to a reading of the clock, unless the reading
/// lies before the epoch: what `SystemTime::duration_since` measures from
/// `UNIX_EPOCH`.
pub uninterp spec fn since_epoch(time: SystemTime) -> Option<Duration>;

/// The whole seconds of a span of time, as `Duration::as_secs` counts them.
pub uninterp spec fn whole_secs(span: Duration) -> u64;

/// The nanoseconds of a span of time beyond its whole seconds, as
/// `Duration::subsec_nanos` counts them.
pub uninterp spec fn further_nanos(span: Duration) -> u32;

/// Reads the system clock with `SystemTime::now`. Nothing is promised of the
/// reading.
#[verifier::external_body]
fn system_now() -> (time: SystemTime) {
    SystemTime::now()
}

/// Measures a reading of the clock from `UNIX_EPOCH` with
/// `SystemTime::duration_since`, which fails if the reading lies before it.
#[verifier::external_body]
fn measure_since_epoch(time: &SystemTime) -> (span: Result<Duration, SystemTimeError>)
    ensures
        match span {
            Ok(measured) => since_epoch(*time) == Some(measured),
            Err(_) => since_epoch(*time) is None,
        },
{
    time.duration_since(UNIX_EPOCH)
}

/// Counts the whole milliseconds of a span with `Duration::as_millis`: a
/// thousand for each second, and those of the further nanoseconds, with what is
/// less than a millisecond cut off.
#[verifier::external_body]
fn count_millis(span: &Duration) -> (millis: u128)
    ensures
        millis == whole_secs(*span) * 1000 + further_nanos(*span) / 1_000_000,
{
    span.as_millis()
}

/// The count of milliseconds since the epoch as a signed number of 64 bits,
/// wrapped around if it is too large; zero if the clock stands before the
/// epoch.
pub open spec fn timestamp_ms(millis: Option<u128>) -> int {
    match millis {
        Some(count) => {
            let low = count as int % 0x1_0000_0000_0000_0000;
            if low < 0x8000_0000_0000_0000 {
                low
            } else {
                low - 0x1_0000_0000_0000_0000
            }
        },
        None => 0,
    }
}

/// The whole milliseconds of a span of time.
pub open spec fn whole_millis(span: Duration) -> u128 {
    (whole_secs(span) * 1000 + further_nanos(span) / 1_000_000) as u128
}

/// The milliseconds from the epoch to a reading of the clock.
pub open spec fn millis_since_epoch(time: SystemTime) -> Option<u128> {
    match since_epoch(time) {
        Some(span) => Some(whole_millis(span)),
        None => None,
    }
}

/// The timestamp for a count of milliseconds since the epoch, or for a clock
/// that stands before the epoch.
pub fn unix_timestamp_ms(millis: Option<u128>) -> (timestamp: i64)
    ensures
        timestamp == timestamp_ms(millis),
{
    match millis {
        Some(count) => {
            let timestamp: i64 = count as i64;
            proof {
                let low: u64 = count as u64;
                assert(low == count % 0x1_0000_0000_0000_0000) by (bit_vector)
                    requires
                        low == count as u64,
                ;
                assert(low < 0x8000_0000_0000_0000 ==> timestamp == low) by (bit_vector)
                    requires
                        low == count as u64,
                        timestamp == count as i64,
                ;
                assert(low >= 0x8000_0000_0000_0000 ==> timestamp == low - 0x1_0000_0000_0000_0000)
                    by (bit_vector)
                    requires
                        low == count as u64,
                        timestamp == count as i64,
                ;
            }
            timestamp
        },
        None => 0,
    }
}

/// The current time in Unix milliseconds.
pub fn now_unix_timestamp_ms() -> (timestamp: i64)
    ensures
        exists|time: SystemTime| timestamp == timestamp_ms(#[trigger] millis_since_epoch(time)),
{
    let time = system_now();
    let millis: Option<u128> = match measure_since_epoch(&time) {
        Ok(span) => Some(count_millis(&span)),
        Err(_) => None,
    };
    assert(millis == millis_since_epoch(time));
    unix_timestamp_ms(millis)
}

/// A count of milliseconds that fits is its own timestamp.
pub proof fn law_timestamp_is_exact_within_range(count: u128)
    requires
        count <= i64::MAX,
    ensures
        timestamp_ms(Some(count)) == count,
{
}

/// A timestamp fits in 64 bits with a sign and differs from the count of
/// milliseconds by a multiple of two to the sixty-fourth; before the epoch it is
/// zero.
pub proof fn law_timestamp_is_the_count_in_64_bits(count: u128)
    ensures
        i64::MIN <= timestamp_ms(Some(count)) <= i64::MAX,
        (count - timestamp_ms(Some(count))) % 0x1_0000_0000_0000_0000 == 0,
        timestamp_ms(None) == 0,
{
    let low = count as int % 0x1_0000_0000_0000_0000;
    let times = count as int / 0x1_0000_0000_0000_0000;
    assert(count == times * 0x1_0000_0000_0000_0000 + low);
    assert((count - low) % 0x1_0000_0000_0000_0000 == 0);
}

/// The milliseconds from the epoch to a reading of the clock are as many whole
/// ones as the span between them holds; a reading before the epoch has none.
pub proof fn law_millis_fill_the_span(time: SystemTime)
    ensures
        since_epoch(time) is None <==> millis_since_epoch(time) is None,
        since_epoch(time) matches Some(span) ==> millis_since_epoch(time) matches Some(millis) && {
            let nanos = whole_secs(span) * 1_000_000_000 + further_nanos(span);
            millis * 1_000_000 <= nanos < (millis + 1) * 1_000_000
        },
{
    if let Some(span) = since_epoch(time) {
        let millis = whole_secs(span) * 1000 + further_nanos(span) / 1_000_000;
        assert(0 <= millis <= u128::MAX);
    }
}

} // verus!
