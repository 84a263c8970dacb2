use vstd::prelude::*;

use crate::policy::TimeoutSpec;

verus! {

/// State of the cached key set.
///
/// `K` is the key set, which the cache only stores and hands out; `W` is the
/// handle on which readers wait for a fetch in flight. Instants are in
/// milliseconds.
#[derive(Debug)]
pub enum CacheState<K, W> {
    /// There is no data in cache; this is the initial state.
    Empty,
    /// Cache is empty or expired and a fetch of new content is ongoing; holds
    /// the handle that is signalled when the fetch concludes.
    Fetching(W),
    /// Cache is valid, but its content is being refreshed in the background.
    Refreshing { expires: u64, keys: K },
    /// Cache is populated and not being refreshed.
    Fetched { expires: u64, keys: K },
}

/// What a reader does with the state it has just read.
#[derive(Debug)]
pub enum ReadAction<K, W> {
    /// Claim the state and fetch in the foreground.
    Fetch,
    /// Wait on the handle of the fetch in flight, then read again.
    Wait(W),
    /// Return these keys.
    Serve(K),
    /// Return these keys, after marking the state as refreshing with them and
    /// starting a refresh in the background.
    ServeAndRefresh { expires: u64, keys: K },
}

/// Configuration of a cache: how long before expiry a background refresh
/// starts, and how each fetch is bounded.
#[derive(Debug, Clone, Copy)]
pub struct CacheConfig {
    update_period: u64,
    timeout_spec: TimeoutSpec,
}

/// Whether a cached entry that expires at `expires` is due for a background
/// refresh at `now`, with refreshes starting `update_period` before expiry.
pub open spec fn in_refresh_window(now: int, expires: int, update_period: int) -> bool {
    now + update_period >= expires
}

/// The action a reader takes on `state` at `now`.
pub open spec fn read_action_spec<K, W>(
    state: CacheState<K, W>,
    now: u64,
    update_period: u64,
) -> ReadAction<K, W> {
    match state {
        CacheState::Empty => ReadAction::Fetch,
        CacheState::Fetching(h) => ReadAction::Wait(h),
        CacheState::Refreshing { expires, keys } => ReadAction::Serve(keys),
        CacheState::Fetched { expires, keys } => if now >= expires {
            ReadAction::Fetch
        } else if in_refresh_window(now as int, expires as int, update_period as int) {
            ReadAction::ServeAndRefresh { expires, keys }
        } else {
            ReadAction::Serve(keys)
        },
    }
}

/// The state left by a foreground fetch that concluded with `outcome`.
pub open spec fn after_foreground_spec<K, W, E>(outcome: Result<(K, u64), E>) -> CacheState<K, W> {
    match outcome {
        Ok((keys, expires)) => CacheState::Fetched { expires, keys },
        Err(_) => CacheState::Empty,
    }
}

/// The state left by a background refresh that concluded with `outcome`
/// while the state was `current`.
pub open spec fn after_refresh_spec<K, W, E>(
    current: CacheState<K, W>,
    outcome: Result<(K, u64), E>,
) -> CacheState<K, W> {
    match outcome {
        Ok((keys, expires)) => CacheState::Fetched { expires, keys },
        Err(_) => match current {
            CacheState::Fetched { expires, keys } => CacheState::Refreshing { expires, keys },
            other => other,
        },
    }
}

impl CacheConfig {
    pub closed spec fn update_period_spec(&self) -> u64 {
        self.update_period
    }

    pub closed spec fn timeout_spec_spec(&self) -> TimeoutSpec {
        self.timeout_spec
    }

    /// A refresh started at the trigger point must be able to finish before
    /// the data expires.
    pub open spec fn wf(&self) -> bool {
        self.update_period_spec() > self.timeout_spec_spec().deadline
    }

    /// A configuration; the update period must exceed the deadline.
    pub fn new(update_period: u64, timeout_spec: TimeoutSpec) -> (r: Self)
        requires
            update_period > timeout_spec.deadline,
        ensures
            r.wf(),
            r.update_period_spec() == update_period,
            r.timeout_spec_spec() == timeout_spec,
    {
        CacheConfig { update_period, timeout_spec }
    }

    /// A configuration, or `None` when the update period does not exceed the
    /// deadline.
    pub fn try_new(update_period: u64, timeout_spec: TimeoutSpec) -> (r: Option<Self>)
        ensures
            r.is_some() <==> update_period > timeout_spec.deadline,
            r matches Some(c) ==> c.wf() && c.update_period_spec() == update_period
                && c.timeout_spec_spec() == timeout_spec,
    {
        if update_period > timeout_spec.deadline {
            Some(CacheConfig::new(update_period, timeout_spec))
        } else {
            None
        }
    }

    pub fn update_period(&self) -> (r: u64)
        ensures
            r == self.update_period_spec(),
    {
        self.update_period
    }

    pub fn timeout_spec(&self) -> (r: TimeoutSpec)
        ensures
            r == self.timeout_spec_spec(),
    {
        self.timeout_spec
    }

    /// What a reader does with the state `state` that it read at `now`.
    ///
    /// An empty state, or data expired at `now`, is fetched in the
    /// foreground; a fetch in flight is waited on; a refreshing state serves
    /// its keys; valid data is served, and refreshed in the background first
    /// when `now` is within the update period of its expiry.
    pub fn read_action<K, W>(&self, state: CacheState<K, W>, now: u64) -> (r: ReadAction<K, W>)
        ensures
            r == read_action_spec(state, now, self.update_period_spec()),
    {
        match state {
            CacheState::Empty => ReadAction::Fetch,
            CacheState::Fetching(h) => ReadAction::Wait(h),
            CacheState::Refreshing { expires, keys } => ReadAction::Serve(keys),
            CacheState::Fetched { expires, keys } => {
                if now >= expires {
                    ReadAction::Fetch
                } else if expires - now <= self.update_period {
                    ReadAction::ServeAndRefresh { expires, keys }
                } else {
                    ReadAction::Serve(keys)
                }
            },
        }
    }
}

impl<K, W> CacheState<K, W> {
    /// The state while a foreground fetch, signalled through `handle`, is in
    /// flight.
    pub fn fetching(handle: W) -> (r: Self)
        ensures
            r == CacheState::<K, W>::Fetching(handle),
    {
        CacheState::Fetching(handle)
    }

    /// The state while a background refresh is in flight: the keys that were
    /// served stay servable, with their expiry.
    pub fn refreshing(keys: K, expires: u64) -> (r: Self)
        ensures
            r == (CacheState::<K, W>::Refreshing { expires, keys }),
    {
        CacheState::Refreshing { expires, keys }
    }

    /// The state after the foreground fetch concluded with `outcome`: the
    /// fetched keys on success, whatever state held before; empty on failure,
    /// so that the next reader fetches from scratch.
    pub fn after_foreground<E>(outcome: Result<(K, u64), E>) -> (r: Self)
        ensures
            r == after_foreground_spec::<K, W, E>(outcome),
    {
        match outcome {
            Ok((keys, expires)) => CacheState::Fetched { expires, keys },
            Err(_) => CacheState::Empty,
        }
    }

    /// Merges the outcome of a background refresh into the state `current`
    /// found when it concluded.
    ///
    /// A success always installs the fresh keys, and hands back the handle
    /// of a foreground fetch in flight, whose waiters are then to be woken.
    /// A failure leaves an empty, fetching or refreshing state as it is, and
    /// demotes fetched data to refreshing so that a later read retries.
    pub fn after_refresh<E>(current: Self, outcome: Result<(K, u64), E>) -> (r: (Self, Option<W>))
        ensures
            r.0 == after_refresh_spec(current, outcome),
            r.1 == (match (current, outcome) {
                (CacheState::Fetching(h), Ok(_)) => Some(h),
                _ => None::<W>,
            }),
    {
        match current {
            CacheState::Empty => match outcome {
                Ok((keys, expires)) => (CacheState::Fetched { expires, keys }, None),
                Err(_) => (CacheState::Empty, None),
            },
            CacheState::Fetching(h) => match outcome {
                Ok((keys, expires)) => (CacheState::Fetched { expires, keys }, Some(h)),
                Err(_) => (CacheState::Fetching(h), None),
            },
            CacheState::Refreshing { expires, keys } => match outcome {
                Ok((k, e)) => (CacheState::Fetched { expires: e, keys: k }, None),
                Err(_) => (CacheState::Refreshing { expires, keys }, None),
            },
            CacheState::Fetched { expires, keys } => match outcome {
                Ok((k, e)) => (CacheState::Fetched { expires: e, keys: k }, None),
                Err(_) => (CacheState::Refreshing { expires, keys }, None),
            },
        }
    }
}


/// Single flight: once a reader has claimed an empty cache for a fetch, every
/// other reader waits on that fetch's handle instead of fetching, and once the
/// fetch succeeds with data fresh at `now`, every reader is served the same
/// keys.
pub proof fn lemma_single_flight<K, W>(
    handle: W,
    keys: K,
    expires: u64,
    now: u64,
    update_period: u64,
)
    requires
        now + update_period < expires,
    ensures
        read_action_spec(CacheState::<K, W>::Empty, now, update_period) == ReadAction::<K, W>::Fetch,
        read_action_spec(CacheState::<K, W>::Fetching(handle), now, update_period)
            == ReadAction::<K, W>::Wait(handle),
        read_action_spec(
            after_foreground_spec::<K, W, ()>(Ok((keys, expires))),
            now,
            update_period,
        ) == ReadAction::<K, W>::Serve(keys),
{
}

/// Stale while revalidate: valid data read inside the refresh window is
/// served at once and starts one refresh; while that refresh is in flight
/// every read is served the old keys without fetching or waiting; once it
/// succeeds, reads are served the new keys.
pub proof fn lemma_stale_while_revalidate<K, W>(
    keys: K,
    expires: u64,
    new_keys: K,
    new_expires: u64,
    now: u64,
    later: u64,
    update_period: u64,
)
    requires
        now < expires,
        now + update_period >= expires,
        later + update_period < new_expires,
    ensures
        read_action_spec(CacheState::<K, W>::Fetched { expires, keys }, now, update_period)
            == (ReadAction::<K, W>::ServeAndRefresh { expires, keys }),
        forall|t: u64|
            read_action_spec(CacheState::<K, W>::Refreshing { expires, keys }, t, update_period)
                == ReadAction::<K, W>::Serve(keys),
        after_refresh_spec::<K, W, ()>(
            CacheState::Refreshing { expires, keys },
            Ok((new_keys, new_expires)),
        ) == (CacheState::<K, W>::Fetched { expires: new_expires, keys: new_keys }),
        read_action_spec(
            after_refresh_spec::<K, W, ()>(
                CacheState::Refreshing { expires, keys },
                Ok((new_keys, new_expires)),
            ),
            later,
            update_period,
        ) == ReadAction::<K, W>::Serve(new_keys),
{
}

/// Hard expiry: fetched data read at or after its expiry is not served; the
/// reader fetches in the foreground, and readers that come while that fetch
/// is in flight wait for it.
pub proof fn lemma_hard_expiry<K, W>(
    keys: K,
    expires: u64,
    handle: W,
    now: u64,
    update_period: u64,
)
    requires
        now >= expires,
    ensures
        read_action_spec(CacheState::<K, W>::Fetched { expires, keys }, now, update_period)
            == ReadAction::<K, W>::Fetch,
        read_action_spec(CacheState::<K, W>::Fetching(handle), now, update_period)
            == ReadAction::<K, W>::Wait(handle),
{
}

} // verus!
