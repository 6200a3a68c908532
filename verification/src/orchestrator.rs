//! The authentication orchestrator: decides, once per invocation, whether a
//! cached token is served as it stands, refreshed, or re-derived through an
//! interactive login, and normalizes all three endings into one outcome.
//!
//! The orchestrator never performs a network exchange itself and never
//! writes to disk: the caller performs the exchanges the selected plan asks
//! for and feeds their results back in, and persists fresh material when the
//! outcome says some was minted.

use vstd::prelude::*;
use crate::exchange::{ExchangeError, ExchangeErrorView, FreshTokens, FreshView};
use crate::store::{decode_spec, encode_spec, lemma_encode_decode, CachedCredentials, CredsView};

verus! {

/// Where a returned token came from.
#[derive(Debug)]
pub enum Provenance {
    /// Served unchanged from the cached record; nothing needs persisting.
    FromCache,
    /// Newly minted; the caller must persist the token together with this
    /// rotation material.
    FromFreshLogin { refresh_credential: String, access_token_ttl_seconds: u64 },
}

/// The mathematical value of a provenance tag.
pub ghost enum ProvenanceView {
    FromCache,
    FromFreshLogin { refresh: Seq<char>, ttl: int },
}

impl View for Provenance {
    type V = ProvenanceView;

    open spec fn view(&self) -> ProvenanceView {
        match self {
            Provenance::FromCache => ProvenanceView::FromCache,
            Provenance::FromFreshLogin { refresh_credential, access_token_ttl_seconds } =>
                ProvenanceView::FromFreshLogin {
                refresh: refresh_credential@,
                ttl: *access_token_ttl_seconds as int,
            },
        }
    }
}

/// What the orchestrator hands back: a usable access token, tagged with
/// where it came from so the caller knows whether to persist new state.
#[derive(Debug)]
pub struct AuthenticationOutcome {
    /// The access token to use against the game service.
    pub token: String,
    /// Whether the token was served from cache or freshly obtained.
    pub provenance: Provenance,
}

/// The mathematical value of an outcome.
pub ghost struct OutcomeView {
    pub token: Seq<char>,
    pub provenance: ProvenanceView,
}

impl View for AuthenticationOutcome {
    type V = OutcomeView;

    open spec fn view(&self) -> OutcomeView {
        OutcomeView { token: self.token@, provenance: self.provenance@ }
    }
}

/// The branch the orchestrator selects, once per invocation.
#[derive(Debug)]
pub enum AuthPlan {
    /// The cached token is still valid: the outcome is ready and no network
    /// exchange happens at all.
    Done(AuthenticationOutcome),
    /// The cached token has expired: attempt the refresh exchange with this
    /// stored refresh credential.
    Refresh(String),
    /// No usable cache: go straight to the interactive login.
    Login,
}

/// The mathematical value of a plan.
pub ghost enum PlanView {
    Done(OutcomeView),
    Refresh(Seq<char>),
    Login,
}

impl View for AuthPlan {
    type V = PlanView;

    open spec fn view(&self) -> PlanView {
        match self {
            AuthPlan::Done(o) => PlanView::Done(o@),
            AuthPlan::Refresh(r) => PlanView::Refresh(r@),
            AuthPlan::Login => PlanView::Login,
        }
    }
}

/// The value of an optional borrowed cache record.
pub open spec fn cache_view(cache: Option<&CachedCredentials>) -> Option<CredsView> {
    match cache {
        Some(c) => Some(c@),
        None => None,
    }
}

/// The value of a result whose both sides have one.
pub open spec fn result_view<T: View, E: View>(r: Result<T, E>) -> Result<T::V, E::V> {
    match r {
        Ok(t) => Ok(t@),
        Err(e) => Err(e@),
    }
}

/// The outcome that serves a cached record unchanged.
pub open spec fn cached_outcome(c: CredsView) -> OutcomeView {
    OutcomeView { token: c.token, provenance: ProvenanceView::FromCache }
}

/// The outcome that carries freshly minted material back to the caller.
pub open spec fn fresh_outcome(f: FreshView) -> OutcomeView {
    OutcomeView {
        token: f.token,
        provenance: ProvenanceView::FromFreshLogin { refresh: f.refresh, ttl: f.ttl },
    }
}

/// The decision table: serve the cache while the clock is strictly before
/// the expiry; refresh an expired record; log in interactively when caching
/// is off or no record exists. An expiry equal to the clock is expired.
pub open spec fn plan_of(cache_enabled: bool, cache: Option<CredsView>, now: int) -> PlanView {
    if !cache_enabled {
        PlanView::Login
    } else {
        match cache {
            None => PlanView::Login,
            Some(c) => if now < c.expiry {
                PlanView::Done(cached_outcome(c))
            } else {
                PlanView::Refresh(c.refresh)
            },
        }
    }
}

/// What follows the refresh attempt: success ends the run with the
/// refreshed material; failure of any kind falls through to interactive
/// login and is never surfaced.
pub open spec fn refresh_step_of(r: Result<FreshView, ExchangeErrorView>) -> PlanView {
    match r {
        Ok(f) => PlanView::Done(fresh_outcome(f)),
        Err(_) => PlanView::Login,
    }
}

/// What the run returns once the interactive login has been attempted:
/// its success becomes the outcome, its failure is terminal and is handed
/// to the caller unmodified.
pub open spec fn login_result_of(r: Result<FreshView, ExchangeErrorView>) -> Result<
    OutcomeView,
    ExchangeErrorView,
> {
    match r {
        Ok(f) => Ok(fresh_outcome(f)),
        Err(e) => Err(e),
    }
}

/// Selects the branch for this invocation from the cache and the clock.
pub fn select_plan(cache_enabled: bool, cache: Option<&CachedCredentials>, now: u64) -> (p:
    AuthPlan)
    ensures
        p@ == plan_of(cache_enabled, cache_view(cache), now as int),
{
    if !cache_enabled {
        AuthPlan::Login
    } else {
        match cache {
            None => AuthPlan::Login,
            Some(c) => {
                if now < c.access_token_expiry {
                    AuthPlan::Done(
                        AuthenticationOutcome {
                            token: c.access_token.clone(),
                            provenance: Provenance::FromCache,
                        },
                    )
                } else {
                    AuthPlan::Refresh(c.refresh_credential.clone())
                }
            },
        }
    }
}

/// Folds the refresh attempt's result back into the run.
pub fn after_refresh(r: Result<FreshTokens, ExchangeError>) -> (p: AuthPlan)
    ensures
        p@ == refresh_step_of(result_view(r)),
{
    match r {
        Ok(f) => AuthPlan::Done(outcome_from_fresh(f)),
        Err(_) => AuthPlan::Login,
    }
}

/// Folds the interactive login's result into the run's final answer.
pub fn after_login(r: Result<FreshTokens, ExchangeError>) -> (out: Result<
    AuthenticationOutcome,
    ExchangeError,
>)
    ensures
        result_view(out) == login_result_of(result_view(r)),
{
    match r {
        Ok(f) => Ok(outcome_from_fresh(f)),
        Err(e) => Err(e),
    }
}

/// The fresh-login outcome carrying the minted material.
pub fn outcome_from_fresh(f: FreshTokens) -> (o: AuthenticationOutcome)
    ensures
        o@ == fresh_outcome(f@),
{
    AuthenticationOutcome {
        token: f.access_token,
        provenance: Provenance::FromFreshLogin {
            refresh_credential: f.refresh_credential,
            access_token_ttl_seconds: f.access_token_ttl_seconds,
        },
    }
}

/// The record the caller persists after a fresh login: the new token, an
/// absolute expiry of now plus the token's lifetime, and the new refresh
/// credential.
pub open spec fn record_of_fresh(f: FreshView, now: int) -> CredsView {
    CredsView { token: f.token, expiry: now + f.ttl, refresh: f.refresh }
}

/// Builds the record to persist after a fresh login.
pub fn credentials_from_fresh(f: &FreshTokens, now: u64) -> (c: CachedCredentials)
    requires
        now + f.access_token_ttl_seconds <= u64::MAX,
    ensures
        c@ == record_of_fresh(f@, now as int),
{
    CachedCredentials {
        access_token: f.access_token.clone(),
        access_token_expiry: now + f.access_token_ttl_seconds,
        refresh_credential: f.refresh_credential.clone(),
    }
}

/// One whole run of the orchestrator, given what each exchange would return
/// were it reached: the plan is selected once, a scheduled refresh that
/// succeeds ends the run, a refresh that fails falls through to the
/// interactive login, and the login's result is the run's result.
pub open spec fn run_of(
    cache_enabled: bool,
    cache: Option<CredsView>,
    now: int,
    refresh_result: Result<FreshView, ExchangeErrorView>,
    login_result: Result<FreshView, ExchangeErrorView>,
) -> Result<OutcomeView, ExchangeErrorView> {
    match plan_of(cache_enabled, cache, now) {
        PlanView::Done(o) => Ok(o),
        PlanView::Refresh(_) => match refresh_step_of(refresh_result) {
            PlanView::Done(o) => Ok(o),
            _ => login_result_of(login_result),
        },
        PlanView::Login => login_result_of(login_result),
    }
}

/// A cached record strictly inside its validity window is served as it
/// stands: the run returns exactly the stored token, tagged as from cache,
/// and its result does not depend on either exchange — no network call can
/// influence it because none is reached.
pub proof fn lemma_cache_hit(
    c: CredsView,
    now: int,
    refresh_result: Result<FreshView, ExchangeErrorView>,
    login_result: Result<FreshView, ExchangeErrorView>,
)
    requires
        now < c.expiry,
    ensures
        run_of(true, Some(c), now, refresh_result, login_result) == Ok::<
            OutcomeView,
            ExchangeErrorView,
        >(cached_outcome(c)),
{
}

/// An expired record with a succeeding refresh ends as a fresh-login
/// outcome carrying the refreshed material; the interactive login is never
/// reached, so the run's result does not depend on it.
pub proof fn lemma_expired_refresh_success(
    c: CredsView,
    now: int,
    f: FreshView,
    login_result: Result<FreshView, ExchangeErrorView>,
)
    requires
        now >= c.expiry,
    ensures
        plan_of(true, Some(c), now) == PlanView::Refresh(c.refresh),
        run_of(true, Some(c), now, Ok(f), login_result) == Ok::<
            OutcomeView,
            ExchangeErrorView,
        >(fresh_outcome(f)),
{
}

/// An expired record whose refresh fails, whatever the reason, falls
/// through to exactly the interactive login: its success becomes the run's
/// result, its failure is the run's error, unmodified.
pub proof fn lemma_expired_refresh_failure(
    c: CredsView,
    now: int,
    e: ExchangeErrorView,
    login_result: Result<FreshView, ExchangeErrorView>,
)
    requires
        now >= c.expiry,
    ensures
        plan_of(true, Some(c), now) == PlanView::Refresh(c.refresh),
        run_of(true, Some(c), now, Err(e), login_result) == login_result_of(login_result),
{
}

/// With caching disabled the run is the interactive login, whatever record
/// may sit on disk and whatever the clock says: the behaviour is identical
/// to a permanently absent cache.
pub proof fn lemma_disabled_ignores_cache(
    cache1: Option<CredsView>,
    cache2: Option<CredsView>,
    now1: int,
    now2: int,
    refresh_result: Result<FreshView, ExchangeErrorView>,
    login_result: Result<FreshView, ExchangeErrorView>,
)
    ensures
        run_of(false, cache1, now1, refresh_result, login_result) == run_of(
            false,
            cache2,
            now2,
            refresh_result,
            login_result,
        ),
        run_of(false, cache1, now1, refresh_result, login_result) == run_of(
            true,
            None,
            now1,
            refresh_result,
            login_result,
        ),
        run_of(false, cache1, now1, refresh_result, login_result) == login_result_of(
            login_result,
        ),
{
}

/// An expiry exactly equal to the clock is expired: the refresh path is
/// attempted, never the cache hit.
pub proof fn lemma_expiry_now_is_expired(c: CredsView)
    ensures
        plan_of(true, Some(c), c.expiry) == PlanView::Refresh(c.refresh),
{
}

/// The first-run story. With no record on disk the run is the interactive
/// login and returns its fresh material; the record built from that
/// material survives the store's write and read unchanged; and any later
/// invocation strictly inside the token's lifetime is served from the
/// cache with that very token.
pub proof fn lemma_first_login_then_cached(
    f: FreshView,
    now: int,
    later: int,
    refresh_result: Result<FreshView, ExchangeErrorView>,
)
    requires
        0 <= now,
        0 <= f.ttl,
        now + f.ttl <= u64::MAX,
        f.token.len() <= u64::MAX,
        later < now + f.ttl,
    ensures
        run_of(true, None, now, refresh_result, Ok(f)) == Ok::<
            OutcomeView,
            ExchangeErrorView,
        >(fresh_outcome(f)),
        decode_spec(encode_spec(record_of_fresh(f, now))) == Some(record_of_fresh(f, now)),
        plan_of(true, Some(record_of_fresh(f, now)), later) == PlanView::Done(
            OutcomeView { token: f.token, provenance: ProvenanceView::FromCache },
        ),
{
    lemma_encode_decode(record_of_fresh(f, now));
}

} // verus!
