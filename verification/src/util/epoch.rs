//! The current time.
use vstd::prelude::*;

verus! {

/// The error of `std::time` for a clock that stands before the Unix epoch.
#[verifier::external_type_specification]
#[verifier::external_body]
pub struct ExSystemTimeError(std::time::SystemTimeError);

/// `SystemTime::duration_since` the Unix epoch, of the time that `SystemTime::now` gives, in
/// milliseconds: any number, as the clock stands.
#[verifier::external_body]
fn millis_since_epoch() -> (r: Result<u128, std::time::SystemTimeError>) {
    std::time::SystemTime::now().duration_since(std::time::SystemTime::UNIX_EPOCH).map(
        |since| since.as_millis(),
    )
}

/// Whether this is a time, in milliseconds since the Unix epoch, that the clock gives, or the error
/// that it gives instead. Which one it gives is up to the machine.
pub closed spec fn can_be_now(since: Result<u128, std::time::SystemTimeError>) -> bool {
    call_ensures(millis_since_epoch, (), since)
}

/// A number of milliseconds in the signed form that the database keeps. It is the same number for
/// roughly 292 million years.
pub fn epoch_millis(millis: u128) -> (r: i64)
    ensures
        r == millis as i64,
        millis <= i64::MAX ==> r == millis,
{
    #[verifier::truncate]
    (millis as i64)
}

/// Returns the current time as milliseconds since the Unix epoch.
///
/// # Errors
///
/// Returns `SystemTimeError` if the system clock is set before the Unix epoch.
pub fn unix_epoch_millis() -> (r: Result<i64, std::time::SystemTimeError>)
    ensures
        match r {
            Ok(now) => exists|millis: u128| #[trigger]
                can_be_now(Ok(millis)) && now == millis as i64,
            Err(error) => can_be_now(Err(error)),
        },
{
    let since = millis_since_epoch();
    assert(can_be_now(since));
    match since {
        Ok(millis) => Ok(epoch_millis(millis)),
        Err(error) => Err(error),
    }
}

} // verus!
