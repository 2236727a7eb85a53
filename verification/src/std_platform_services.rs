//! Platform services on top of the Rust standard library, for the
//! freestanding execution engine.

use vstd::prelude::*;

use crate::platform_result::PlatformResult;

verus! {

#[verifier::external_type_specification]
#[verifier::external_body]
pub struct ExGetrandomError(getrandom::Error);

/// Calls `getrandom::getrandom`, which fills `buffer` from the operating
/// system's entropy source.  Trusted: the slice keeps its length whatever
/// the outcome, and an empty slice succeeds without asking the operating
/// system (`getrandom_uninit` skips the call then); the bytes written and
/// whether a non-empty request succeeds are left unstated, as they depend
/// on the operating system.
#[verifier::external_body]
fn os_getrandom(buffer: &mut [u8]) -> (r: Result<(), getrandom::Error>)
    ensures
        final(buffer)@.len() == old(buffer)@.len(),
        old(buffer)@.len() == 0 ==> r is Ok,
{
    getrandom::getrandom(buffer)
}

/// Fills a buffer, `buffer`, with random bytes sampled from the random number
/// source provided by the host operating system, as provided by `getrandom`.
pub fn platform_getrandom(buffer: &mut [u8]) -> (r: PlatformResult<()>)
    ensures
        final(buffer)@.len() == old(buffer)@.len(),
        r == PlatformResult::<()>::Success(()) || r == PlatformResult::<()>::UnknownError,
        old(buffer)@.len() == 0 ==> r == PlatformResult::<()>::Success(()),
{
    let outcome = os_getrandom(buffer);
    getrandom_result(&outcome)
}

/// Maps the outcome of the entropy source to the platform result.
pub fn getrandom_result(outcome: &Result<(), getrandom::Error>) -> (r: PlatformResult<()>)
    ensures
        outcome is Ok ==> r == PlatformResult::<()>::Success(()),
        outcome is Err ==> r == PlatformResult::<()>::UnknownError,
{
    match outcome {
        Ok(_) => PlatformResult::Success(()),
        Err(_) => PlatformResult::UnknownError,
    }
}

} // verus!

verus! {

#[verifier::external_type_specification]
#[verifier::external_body]
pub struct ExSystemTime(std::time::SystemTime);

#[verifier::external_type_specification]
#[verifier::external_body]
pub struct ExSystemTimeError(std::time::SystemTimeError);

/// Calls `std::time::SystemTime::now`.  Trusted with no claim on the result:
/// it is the clock's reading.
#[verifier::external_body]
fn system_time_now() -> (t: std::time::SystemTime) {
    std::time::SystemTime::now()
}

/// Calls `SystemTime::duration_since` with `SystemTime::UNIX_EPOCH`.
/// Trusted with no claim on the result: it fails when `t` lies before the
/// epoch, and the reading it is taken of is opaque here.
#[verifier::external_body]
fn duration_since_unix_epoch(t: &std::time::SystemTime) -> (r: Result<
    std::time::Duration,
    std::time::SystemTimeError,
>) {
    t.duration_since(std::time::SystemTime::UNIX_EPOCH)
}

/// The total number of whole nanoseconds in a duration, as
/// `Duration::as_nanos` gives it.
pub uninterp spec fn duration_nanos(d: std::time::Duration) -> u128;

/// Calls `Duration::as_nanos`.  Trusted: the result is a function of the
/// duration alone, named `duration_nanos`.
#[verifier::external_body]
fn duration_as_nanos(d: &std::time::Duration) -> (n: u128)
    ensures
        n == duration_nanos(*d),
{
    d.as_nanos()
}

/// The platform's reading of real time, in nanoseconds since the Unix
/// epoch, or `UnknownError` when the clock reads before the epoch.  A
/// successful answer is the nanosecond count (`Duration::as_nanos`) of a
/// duration: that of the clock's reading since the epoch.
pub fn platform_get_real_time() -> (r: PlatformResult<u128>)
    ensures
        r is Success || r is UnknownError,
        r matches PlatformResult::Success(n) ==> exists|d: std::time::Duration|
            n == #[trigger] duration_nanos(d),
{
    let now = system_time_now();
    let since = duration_since_unix_epoch(&now);
    let ghost reading = since;
    let r = real_time_from_clock(since);
    proof {
        if let Ok(d) = reading {
            assert(r == PlatformResult::<u128>::Success(duration_nanos(d)));
        }
    }
    r
}

/// Maps the clock's reading, measured from the Unix epoch, to the platform
/// result: a reading at or after the epoch succeeds with its nanoseconds,
/// one before the epoch is `UnknownError`.
pub fn real_time_from_clock(since_epoch: Result<std::time::Duration, std::time::SystemTimeError>) -> (r:
    PlatformResult<u128>)
    ensures
        since_epoch matches Ok(d) ==> r == PlatformResult::<u128>::Success(duration_nanos(d)),
        since_epoch is Err ==> r == PlatformResult::<u128>::UnknownError,
{
    let nanos = match since_epoch {
        Ok(d) => Some(duration_as_nanos(&d)),
        Err(_) => None,
    };
    real_time_result(nanos)
}

/// Maps the number of nanoseconds since the epoch, `None` when the clock
/// reads before it, to the platform result.
pub fn real_time_result(nanos_since_epoch: Option<u128>) -> (r: PlatformResult<u128>)
    ensures
        nanos_since_epoch matches Some(n) ==> r == PlatformResult::<u128>::Success(n),
        nanos_since_epoch is None ==> r == PlatformResult::<u128>::UnknownError,
{
    match nanos_since_epoch {
        Some(n) => PlatformResult::Success(n),
        None => PlatformResult::UnknownError,
    }
}

} // verus!
