use vstd::prelude::*;

use crate::policy::{RequestError, TimeoutSpec};

verus! {

/// What happened since the retry loop last decided.
#[derive(Debug)]
pub enum Attempt<T, E> {
    /// The attempt answered with a value.
    Succeeded(T),
    /// The attempt failed, by a client error or by its own timeout.
    Failed(RequestError<E>),
    /// The overall deadline of the whole request ran out.
    DeadlineElapsed,
}

/// What the runner of the retry loop does next.
#[derive(Debug)]
pub enum RetryAction<T, E> {
    /// Stop and hand this outcome to the caller.
    Finish(Result<T, RequestError<E>>),
    /// Sleep for the given number of milliseconds, then attempt once more.
    RetryAfter(u64),
}

/// Decisions of a fetch that is retried under a [`TimeoutSpec`].
///
/// The runner makes an attempt, reports it with [`RetryLoop::step`], and either
/// stops or sleeps and attempts again, as the returned action says.
pub struct RetryLoop {
    spec: TimeoutSpec,
    retried: u8,
}

/// What a failed attempt does to a loop allowed `retries` retries that has
/// retried `retried` times: `None` where it gives up, else the number of
/// retries made once it has retried.
pub open spec fn retry_after_failure(retries: nat, retried: nat) -> Option<nat> {
    if retried >= retries {
        None
    } else {
        Some(retried + 1)
    }
}

/// Whether a loop allowed `retries` retries, that has retried `retried` times,
/// has given up after `n` more failed attempts.
pub open spec fn gave_up_after(retries: nat, retried: nat, n: nat) -> bool
    decreases n,
{
    if n == 0 {
        false
    } else {
        match retry_after_failure(retries, retried) {
            None => true,
            Some(next) => gave_up_after(retries, next, (n - 1) as nat),
        }
    }
}

impl RetryLoop {
    pub closed spec fn policy(&self) -> TimeoutSpec {
        self.spec
    }

    /// How many retries have been started so far.
    pub closed spec fn retried(&self) -> nat {
        self.retried as nat
    }

    pub closed spec fn wf(&self) -> bool {
        self.retried <= self.spec.retries
    }

    /// A loop that has made no attempt yet.
    pub fn new(spec: TimeoutSpec) -> (r: Self)
        ensures
            r.wf(),
            r.policy() == spec,
            r.retried() == 0,
    {
        RetryLoop { spec, retried: 0 }
    }

    /// Decides on one reported attempt.
    ///
    /// A success finishes with its value. A failure is retried after the
    /// backoff while fewer than `retries` retries were made, and otherwise
    /// finishes with that failure. An elapsed deadline finishes with
    /// [`RequestError::Timeout`] whatever retries remain.
    pub fn step<T, E>(&mut self, attempt: Attempt<T, E>) -> (r: RetryAction<T, E>)
        requires
            old(self).wf(),
        ensures
            final(self).wf(),
            final(self).policy() == old(self).policy(),
            match attempt {
                Attempt::Succeeded(v) => r == RetryAction::<T, E>::Finish(Ok(v))
                    && final(self).retried() == old(self).retried(),
                Attempt::DeadlineElapsed => r == RetryAction::<T, E>::Finish(
                    Err(RequestError::Timeout),
                ) && final(self).retried() == old(self).retried(),
                Attempt::Failed(e) => match retry_after_failure(
                    old(self).policy().retries as nat,
                    old(self).retried(),
                ) {
                    None => r == RetryAction::<T, E>::Finish(Err(e)) && final(self).retried()
                        == old(self).retried(),
                    Some(next) => r == RetryAction::<T, E>::RetryAfter(old(self).policy().backoff)
                        && final(self).retried() == next,
                },
            },
    {
        match attempt {
            Attempt::Succeeded(v) => RetryAction::Finish(Ok(v)),
            Attempt::DeadlineElapsed => RetryAction::Finish(Err(RequestError::Timeout)),
            Attempt::Failed(e) => {
                if self.retried == self.spec.retries {
                    RetryAction::Finish(Err(e))
                } else {
                    self.retried = self.retried + 1;
                    RetryAction::RetryAfter(self.spec.backoff)
                }
            },
        }
    }
}

/// A source that always fails is attempted exactly `retries + 1` times: a
/// fresh loop has not given up after `retries` failures or fewer, and has
/// given up after `retries + 1`.
pub proof fn lemma_attempts_before_giving_up(retries: nat, n: nat)
    ensures
        gave_up_after(retries, 0, n) <==> n >= retries + 1,
{
    lemma_gave_up_from(retries, 0, n);
}

proof fn lemma_gave_up_from(retries: nat, retried: nat, n: nat)
    requires
        retried <= retries,
    ensures
        gave_up_after(retries, retried, n) <==> n >= retries - retried + 1,
    decreases n,
{
    if n > 0 && retried < retries {
        lemma_gave_up_from(retries, retried + 1, (n - 1) as nat);
    }
}

} // verus!
