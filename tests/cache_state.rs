use jwks_cache::policy::{attempt_outcome, expiration_after};
use jwks_cache::retry::{Attempt, RetryAction, RetryLoop};
use jwks_cache::state::{CacheConfig, CacheState, ReadAction};
use jwks_cache::{RequestError, TimeoutSpec};

type State = CacheState<&'static str, u32>;

fn config(update_period: u64, deadline: u64) -> CacheConfig {
    CacheConfig::try_new(
        update_period,
        TimeoutSpec { retries: 0, retry_after: deadline, backoff: 0, deadline },
    )
    .expect("update period exceeds deadline")
}

#[test]
fn default_timeout_spec() {
    let t = TimeoutSpec::default();
    assert_eq!(t.retries, 0);
    assert_eq!(t.retry_after, 10_000);
    assert_eq!(t.backoff, 0);
    assert_eq!(t.deadline, 10_000);
}

#[test]
fn construction_rejects_update_period_not_above_deadline() {
    let spec = TimeoutSpec::default();
    assert!(CacheConfig::try_new(10_000, spec).is_none());
    assert!(CacheConfig::try_new(9_999, spec).is_none());
    assert!(CacheConfig::try_new(0, spec).is_none());
    let c = CacheConfig::try_new(10_001, spec).unwrap();
    assert_eq!(c.update_period(), 10_001);
    assert_eq!(c.timeout_spec().deadline, 10_000);
    assert_eq!(CacheConfig::new(60_000, spec).update_period(), 60_000);
}

#[test]
fn concurrent_readers_of_empty_cache_fetch_once() {
    let cfg = config(60_000, 10_000);
    let now = 1_000_000;
    let mut state: State = CacheState::Empty;
    let mut fetches = 0;
    // the first reader claims the fetch
    assert!(matches!(cfg.read_action(state, now), ReadAction::Fetch));
    fetches += 1;
    state = CacheState::fetching(7);
    // the nine others find it in flight and wait on its handle
    for _ in 1..10 {
        let snapshot: State = match &state {
            CacheState::Fetching(h) => CacheState::Fetching(*h),
            _ => panic!("expected a fetch in flight"),
        };
        assert!(matches!(cfg.read_action(snapshot, now), ReadAction::Wait(7)));
    }
    let expires = expiration_after(now, 3_600_000);
    state = CacheState::after_foreground::<()>(Ok(("keys-1", expires)));
    for _ in 0..10 {
        let snapshot: State = match &state {
            CacheState::Fetched { expires, keys } => CacheState::Fetched { expires: *expires, keys: *keys },
            _ => panic!("expected fetched data"),
        };
        assert!(matches!(cfg.read_action(snapshot, now), ReadAction::Serve("keys-1")));
    }
    assert_eq!(fetches, 1);
}

#[test]
fn background_refresh_then_expiry() {
    // entries live 20 ms, refreshes start 10 ms before expiry
    let cfg = config(10, 1);
    let mut fetches = 0;
    let t0 = 1_000;
    assert!(matches!(cfg.read_action(State::Empty, t0), ReadAction::Fetch));
    fetches += 1;
    let state: State = CacheState::after_foreground::<()>(Ok(("old", t0 + 20)));
    assert!(matches!(state, CacheState::Fetched { expires: 1_020, keys: "old" }));
    // still fresh
    assert!(matches!(
        cfg.read_action(State::Fetched { expires: 1_020, keys: "old" }, t0),
        ReadAction::Serve("old")
    ));
    // inside the refresh window: served and refreshed once
    let t1 = t0 + 10;
    let action = cfg.read_action(State::Fetched { expires: 1_020, keys: "old" }, t1);
    assert!(matches!(action, ReadAction::ServeAndRefresh { expires: 1_020, keys: "old" }));
    fetches += 1;
    let state: State = CacheState::refreshing("old", 1_020);
    assert!(matches!(state, CacheState::Refreshing { expires: 1_020, keys: "old" }));
    for _ in 0..2 {
        assert!(matches!(
            cfg.read_action(State::Refreshing { expires: 1_020, keys: "old" }, t1),
            ReadAction::Serve("old")
        ));
    }
    let (state, wake) = CacheState::after_refresh::<()>(state, Ok(("new", t1 + 20)));
    assert!(wake.is_none());
    assert!(matches!(state, CacheState::Fetched { expires: 1_030, keys: "new" }));
    assert_eq!(fetches, 2);
    // after expiry the next read fetches in the foreground
    let t2 = t1 + 30;
    assert!(matches!(
        cfg.read_action(State::Fetched { expires: 1_030, keys: "new" }, t2),
        ReadAction::Fetch
    ));
    fetches += 1;
    assert_eq!(fetches, 3);
}

#[test]
fn refresh_window_edges() {
    let cfg = config(10, 1);
    assert!(matches!(cfg.read_action(State::Fetched { expires: 100, keys: "k" }, 89), ReadAction::Serve("k")));
    assert!(matches!(
        cfg.read_action(State::Fetched { expires: 100, keys: "k" }, 90),
        ReadAction::ServeAndRefresh { expires: 100, keys: "k" }
    ));
    assert!(matches!(
        cfg.read_action(State::Fetched { expires: 100, keys: "k" }, 99),
        ReadAction::ServeAndRefresh { expires: 100, keys: "k" }
    ));
    assert!(matches!(cfg.read_action(State::Fetched { expires: 100, keys: "k" }, 100), ReadAction::Fetch));
    assert!(matches!(cfg.read_action(State::Refreshing { expires: 100, keys: "k" }, 500), ReadAction::Serve("k")));
}

#[test]
fn failed_foreground_fetch_empties_cache() {
    let state: State = CacheState::after_foreground(Err("down"));
    assert!(matches!(state, CacheState::Empty));
}

#[test]
fn background_merge_on_every_state() {
    let ok = || -> Result<(&'static str, u64), ()> { Ok(("fresh", 50)) };
    let (s, w) = State::after_refresh(State::Empty, ok());
    assert!(matches!(s, CacheState::Fetched { expires: 50, keys: "fresh" }) && w.is_none());
    let (s, w) = State::after_refresh(State::Empty, Err(()));
    assert!(matches!(s, CacheState::Empty) && w.is_none());
    let (s, w) = State::after_refresh(State::Fetching(3), ok());
    assert!(matches!(s, CacheState::Fetched { expires: 50, keys: "fresh" }));
    assert_eq!(w, Some(3));
    let (s, w) = State::after_refresh(State::Fetching(3), Err(()));
    assert!(matches!(s, CacheState::Fetching(3)) && w.is_none());
    let (s, w) = State::after_refresh(State::Refreshing { expires: 9, keys: "stale" }, ok());
    assert!(matches!(s, CacheState::Fetched { expires: 50, keys: "fresh" }) && w.is_none());
    let (s, w) = State::after_refresh(State::Refreshing { expires: 9, keys: "stale" }, Err(()));
    assert!(matches!(s, CacheState::Refreshing { expires: 9, keys: "stale" }) && w.is_none());
    let (s, w) = State::after_refresh(State::Fetched { expires: 9, keys: "other" }, ok());
    assert!(matches!(s, CacheState::Fetched { expires: 50, keys: "fresh" }) && w.is_none());
    let (s, w) = State::after_refresh(State::Fetched { expires: 9, keys: "other" }, Err(()));
    assert!(matches!(s, CacheState::Refreshing { expires: 9, keys: "other" }) && w.is_none());
}

#[test]
fn permanently_failing_source_is_tried_retries_plus_one_times() {
    let spec = TimeoutSpec { retries: 3, retry_after: 10, backoff: 1, deadline: 50 };
    let mut lp = RetryLoop::new(spec);
    let mut attempts = 0;
    let outcome = loop {
        attempts += 1;
        match lp.step::<(), ()>(Attempt::Failed(RequestError::Timeout)) {
            RetryAction::RetryAfter(b) => assert_eq!(b, 1),
            RetryAction::Finish(r) => break r,
        }
    };
    assert_eq!(attempts, 4);
    assert!(matches!(outcome, Err(RequestError::Timeout)));
}

#[test]
fn last_client_error_is_returned() {
    let mut lp = RetryLoop::new(TimeoutSpec { retries: 1, retry_after: 10, backoff: 0, deadline: 50 });
    assert!(matches!(lp.step::<(), u8>(Attempt::Failed(RequestError::Client(1))), RetryAction::RetryAfter(0)));
    assert!(matches!(
        lp.step::<(), u8>(Attempt::Failed(RequestError::Client(2))),
        RetryAction::Finish(Err(RequestError::Client(2)))
    ));
}

#[test]
fn success_after_failure_is_returned() {
    let mut lp = RetryLoop::new(TimeoutSpec { retries: 2, retry_after: 10, backoff: 5, deadline: 50 });
    assert!(matches!(lp.step::<u8, ()>(Attempt::Failed(RequestError::Timeout)), RetryAction::RetryAfter(5)));
    assert!(matches!(lp.step::<u8, ()>(Attempt::Succeeded(9)), RetryAction::Finish(Ok(9))));
}

#[test]
fn deadline_wins_over_remaining_retries() {
    let mut lp = RetryLoop::new(TimeoutSpec { retries: 200, retry_after: 10, backoff: 1, deadline: 50 });
    assert!(matches!(lp.step::<(), ()>(Attempt::DeadlineElapsed), RetryAction::Finish(Err(RequestError::Timeout))));
}

#[test]
fn attempt_outcomes() {
    assert!(matches!(attempt_outcome::<u8, u8>(None), Err(RequestError::Timeout)));
    assert!(matches!(attempt_outcome::<u8, u8>(Some(Ok(4))), Ok(4)));
    assert!(matches!(attempt_outcome::<u8, u8>(Some(Err(5))), Err(RequestError::Client(5))));
    assert!(matches!(RequestError::from(6u8), RequestError::Client(6)));
}

#[test]
fn expiration_adds_time_to_live() {
    assert_eq!(expiration_after(1_000, 3_600_000), 3_601_000);
    assert_eq!(expiration_after(5, 0), 5);
}
