use mc_auth::exchange::{ExchangeError, FreshTokens};
use mc_auth::orchestrator::{
    after_login, after_refresh, credentials_from_fresh, select_plan, AuthPlan, Provenance,
};
use mc_auth::store::{decode_credentials, encode_credentials, CachedCredentials};

fn record(token: &str, expiry: u64, refresh: &str) -> CachedCredentials {
    CachedCredentials {
        access_token: String::from(token),
        access_token_expiry: expiry,
        refresh_credential: String::from(refresh),
    }
}

fn fresh(token: &str, ttl: u64, refresh: &str) -> FreshTokens {
    FreshTokens {
        access_token: String::from(token),
        access_token_ttl_seconds: ttl,
        refresh_credential: String::from(refresh),
    }
}

fn failure(step: &str, cause: &str) -> ExchangeError {
    ExchangeError { step: String::from(step), cause: String::from(cause) }
}

#[test]
fn unexpired_cache_is_served_unchanged() {
    let c = record("cached-token", 100, "cached-refresh");
    match select_plan(true, Some(&c), 99) {
        AuthPlan::Done(outcome) => {
            assert_eq!(outcome.token, "cached-token");
            assert!(matches!(outcome.provenance, Provenance::FromCache));
        },
        _ => panic!("a valid cached token must be served from cache"),
    }
}

#[test]
fn expired_cache_refreshes_with_stored_credential() {
    let c = record("stale-token", 100, "the-refresh-secret");
    match select_plan(true, Some(&c), 101) {
        AuthPlan::Refresh(rc) => assert_eq!(rc, "the-refresh-secret"),
        _ => panic!("an expired record must take the refresh path"),
    }
}

#[test]
fn expiry_exactly_now_is_expired() {
    let c = record("stale-token", 100, "the-refresh-secret");
    match select_plan(true, Some(&c), 100) {
        AuthPlan::Refresh(rc) => assert_eq!(rc, "the-refresh-secret"),
        _ => panic!("an expiry equal to now must count as expired"),
    }
}

#[test]
fn successful_refresh_ends_the_run_without_login() {
    let plan = after_refresh(Ok(fresh("new-token", 3600, "new-refresh")));
    match plan {
        AuthPlan::Done(outcome) => {
            assert_eq!(outcome.token, "new-token");
            match outcome.provenance {
                Provenance::FromFreshLogin { refresh_credential, access_token_ttl_seconds } => {
                    assert_eq!(refresh_credential, "new-refresh");
                    assert_eq!(access_token_ttl_seconds, 3600);
                },
                Provenance::FromCache => panic!("refreshed material is not from cache"),
            }
        },
        _ => panic!("a successful refresh must end the run"),
    }
}

#[test]
fn failed_refresh_falls_through_to_interactive_login() {
    let plan = after_refresh(Err(failure("refresh", "credential revoked")));
    assert!(matches!(plan, AuthPlan::Login));
    let out = after_login(Ok(fresh("login-token", 60, "login-refresh"))).unwrap();
    assert_eq!(out.token, "login-token");
    assert!(matches!(out.provenance, Provenance::FromFreshLogin { .. }));
}

#[test]
fn login_failure_is_terminal_and_unmodified() {
    let err = after_login(Err(failure("device_code", "user abandoned login"))).unwrap_err();
    assert_eq!(err.step, "device_code");
    assert_eq!(err.cause, "user abandoned login");
}

#[test]
fn disabled_caching_ignores_any_record() {
    let c = record("cached-token", u64::MAX, "cached-refresh");
    assert!(matches!(select_plan(false, Some(&c), 0), AuthPlan::Login));
    assert!(matches!(select_plan(false, None, 0), AuthPlan::Login));
    assert!(matches!(select_plan(true, None, 0), AuthPlan::Login));
}

#[test]
fn absent_store_then_login_then_cache_hit() {
    let now: u64 = 1_000;

    // No record on disk: the orchestrator goes straight to interactive login.
    assert!(matches!(select_plan(true, None, now), AuthPlan::Login));

    // The login mints fresh material.
    let out = after_login(Ok(fresh("T1", 3600, "R1"))).unwrap();
    assert_eq!(out.token, "T1");
    let (rc, ttl) = match out.provenance {
        Provenance::FromFreshLogin { refresh_credential, access_token_ttl_seconds } => {
            (refresh_credential, access_token_ttl_seconds)
        },
        Provenance::FromCache => panic!("a fresh login is not from cache"),
    };
    assert_eq!(rc, "R1");
    assert_eq!(ttl, 3600);

    // The caller persists the new record with its absolute expiry.
    let minted = fresh("T1", ttl, &rc);
    let rec = credentials_from_fresh(&minted, now);
    assert_eq!(rec.access_token, "T1");
    assert_eq!(rec.access_token_expiry, now + 3600);
    assert_eq!(rec.refresh_credential, "R1");
    let stored = decode_credentials(&encode_credentials(&rec)).unwrap();

    // A later call strictly within the lifetime is served from cache.
    match select_plan(true, Some(&stored), now + 3599) {
        AuthPlan::Done(outcome) => {
            assert_eq!(outcome.token, "T1");
            assert!(matches!(outcome.provenance, Provenance::FromCache));
        },
        _ => panic!("within the lifetime the token must come from cache"),
    }

    // At the expiry itself, the refresh path is taken.
    assert!(matches!(select_plan(true, Some(&stored), now + 3600), AuthPlan::Refresh(_)));
}
