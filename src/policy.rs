use vstd::prelude::*;

verus! {

/// How one fetch of the key set is retried and bounded in time.
///
/// All durations are in milliseconds.
#[derive(Debug, Clone, Copy)]
pub struct TimeoutSpec {
    /// How many times to retry on failure (timeout or client error).
    pub retries: u8,
    /// How long to wait for a single response before retrying.
    pub retry_after: u64,
    /// Waiting between retries.
    pub backoff: u64,
    /// Total time for completion before considering failure.
    pub deadline: u64,
}

impl Default for TimeoutSpec {
    /// No retries, ten seconds per attempt, no backoff, ten seconds in all.
    fn default() -> (r: Self)
        ensures
            r.retries == 0,
            r.retry_after == 10_000,
            r.backoff == 0,
            r.deadline == 10_000,
    {
        TimeoutSpec { retries: 0, retry_after: 10_000, backoff: 0, deadline: 10_000 }
    }
}

/// Why a fetch of the key set failed.
#[derive(Debug)]
pub enum RequestError<E> {
    /// The underlying source failed; carries its error.
    Client(E),
    /// The time allowed for the request ran out.
    Timeout,
}

impl<T> From<T> for RequestError<T> {
    fn from(value: T) -> (r: Self)
        ensures
            r == RequestError::Client(value),
    {
        RequestError::Client(value)
    }
}

impl<T> vstd::std_specs::convert::FromSpecImpl<T> for RequestError<T> {
    open spec fn obeys_from_spec() -> bool {
        true
    }

    open spec fn from_spec(v: T) -> RequestError<T> {
        RequestError::Client(v)
    }
}

/// The outcome of one attempt bounded by a per-attempt timeout: `None` when the
/// timeout fired before the source answered, else what the source returned.
pub fn attempt_outcome<T, E>(answer: Option<Result<T, E>>) -> (r: Result<T, RequestError<E>>)
    ensures
        match answer {
            None => r == Err::<T, RequestError<E>>(RequestError::Timeout),
            Some(Ok(v)) => r == Ok::<T, RequestError<E>>(v),
            Some(Err(e)) => r == Err::<T, RequestError<E>>(RequestError::Client(e)),
        },
{
    match answer {
        None => Err(RequestError::Timeout),
        Some(Ok(v)) => Ok(v),
        Some(Err(e)) => Err(RequestError::Client(e)),
    }
}

/// The instant at which a response fetched at `now` stops being fresh, given
/// its time to live (both in milliseconds).
pub fn expiration_after(now: u64, time_to_live: u64) -> (r: u64)
    requires
        now + time_to_live <= u64::MAX,
    ensures
        r == now + time_to_live,
{
    now + time_to_live
}

} // verus!
