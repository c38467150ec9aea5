use std::time::Duration;
use std::time::SystemTime;
use std::time::SystemTimeError;
use vstd::prelude::*;

verus! {

#[verifier::external_type_specification]
#[verifier::external_body]
pub struct ExSystemTime(SystemTime);

#[verifier::external_type_specification]
#[verifier::external_body]
pub struct ExSystemTimeError(SystemTimeError);

/// Why a timestamp for a new snippet could not be taken.
#[derive(Debug, Clone, Copy, PartialEq, Eq, Structural)]
pub enum SnippetError {
    /// The system clock reads a time before the UNIX epoch.
    ClockBeforeEpoch,
    /// The number of seconds since the epoch does not fit in an `i64`.
    TimestampOverflow,
}

/// A stored piece of code, kept under its title.
#[derive(Debug, Clone)]
pub struct Snippet {
    pub id: i64,
    pub title: String,
    pub code: String,
    /// Seconds since the UNIX epoch at which the snippet was made.
    pub created_at: i64,
}

/// `SystemTime::now`: the current reading of the system clock. Nothing is
/// claimed of the reading, which depends on the time of the call.
#[verifier::external_body]
fn clock_now() -> SystemTime {
    SystemTime::now()
}

/// `SystemTime::duration_since` with `UNIX_EPOCH` as the earlier time: the
/// span from the epoch to `t`, or an error when `t` lies before the epoch.
/// Nothing is claimed of the result: the reading of the clock is opaque here.
#[verifier::external_body]
fn elapsed_since_epoch(t: &SystemTime) -> Result<Duration, SystemTimeError> {
    t.duration_since(std::time::UNIX_EPOCH)
}

/// `Duration::as_secs`: the whole seconds of a span. Nothing is claimed of
/// the result: the span is opaque here.
#[verifier::external_body]
fn whole_seconds(d: &Duration) -> u64 {
    d.as_secs()
}

/// Converts the whole seconds elapsed since the UNIX epoch, as the clock
/// reported them (`None` when the clock stands before the epoch), into a
/// UNIX timestamp.
pub fn unix_time_from_elapsed(elapsed: Option<u64>) -> (r: Result<i64, SnippetError>)
    ensures
        match elapsed {
            None => r == Err::<i64, SnippetError>(SnippetError::ClockBeforeEpoch),
            Some(secs) => if secs <= i64::MAX {
                r == Ok::<i64, SnippetError>(secs as i64)
            } else {
                r == Err::<i64, SnippetError>(SnippetError::TimestampOverflow)
            },
        },
{
    match elapsed {
        None => Err(SnippetError::ClockBeforeEpoch),
        Some(secs) => {
            if secs <= 0x7fff_ffff_ffff_ffffu64 {
                Ok(secs as i64)
            } else {
                Err(SnippetError::TimestampOverflow)
            }
        },
    }
}

/// The current time as seconds since the UNIX epoch. Which value comes back
/// rests on the clock; whatever it is, a timestamp is never negative.
pub fn current_unix_time() -> (r: Result<i64, SnippetError>)
    ensures
        r matches Ok(t) ==> t >= 0,
{
    let now = clock_now();
    let elapsed = match elapsed_since_epoch(&now) {
        Ok(d) => Some(whole_seconds(&d)),
        Err(_) => None,
    };
    unix_time_from_elapsed(elapsed)
}

impl Snippet {
    /// A snippet with the given id, title and code, stamped with the current
    /// time. It fails only when the clock cannot give a UNIX timestamp.
    pub fn new(id: i64, title: String, code: String) -> (r: Result<Self, SnippetError>)
        ensures
            r matches Ok(s) ==> s.id == id && s.title == title && s.code == code
                && s.created_at >= 0,
    {
        let created_at = current_unix_time()?;
        Ok(Snippet { id, title, code, created_at })
    }
}

} // verus!
