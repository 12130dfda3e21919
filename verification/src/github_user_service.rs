use vstd::prelude::*;
use crate::entities;
use crate::errors::ServiceError;
use crate::github_user_mapper;
use crate::github_user_repository::{find_by_username, spec_upsert, GitHubUserRepository};
use crate::models;
use crate::numeric::{sat_add_i64, spec_sat_add_i64};

verus! {

/// The process-wide rate-limit counters, updated atomically together after
/// every upstream response. `remaining` is the quota left in the current
/// window, `reset` the absolute time the window reopens, and `retry_after`
/// the absolute time before which no upstream call may be attempted (the
/// secondary-limit cooldown). All times are milliseconds since the epoch.
pub struct RateLimitState {
    pub remaining: i64,
    pub reset: i64,
    pub retry_after: i64,
}

/// The rate-limit signals carried by one upstream response: quota left,
/// the absolute window-reset time, and a relative cooldown. A missing or
/// unparseable header arrives here as 0.
pub struct RateLimitHeaders {
    pub remaining: i64,
    pub reset: i64,
    pub retry_after: i64,
}

/// How one upstream profile call ended: a parsed profile, or a failure
/// carrying the HTTP status when one arrived (`None` on transport failure).
pub enum UpstreamOutcome {
    Success(models::GithubUser),
    Failure(Option<u16>),
}

/// Everything the refresh protocol needs from one upstream call. The
/// rate-limit headers are read off every response, successful or not.
pub struct UpstreamResponse {
    pub headers: RateLimitHeaders,
    pub outcome: UpstreamOutcome,
}

/// What a lookup decides before any upstream call is made: serve the fresh
/// stored record, refuse because a gate is closed, or call upstream.
pub enum FetchPlan {
    Hit(models::GithubUser),
    Denied(ServiceError),
    CallUpstream,
}

/// The refusal, if any, that the shared counters force on a refresh, in
/// order: the secondary cooldown first, then the quota window.
pub open spec fn spec_gate(limits: RateLimitState, now: i64) -> Option<ServiceError> {
    if now < limits.retry_after {
        Some(ServiceError::SecondaryRateLimit)
    } else if limits.remaining == 0 && now < limits.reset {
        Some(ServiceError::RateLimitExceeded)
    } else {
        None
    }
}

/// The counters after an upstream response: `remaining` and `reset` are
/// taken from the headers as they stand, and the relative cooldown becomes
/// the absolute deadline `now + retry_after` (so a cooldown of 0 collapses
/// to `now`, meaning no block).
pub open spec fn spec_limits_after(headers: RateLimitHeaders, now: i64) -> RateLimitState {
    RateLimitState {
        remaining: headers.remaining,
        reset: headers.reset,
        retry_after: spec_sat_add_i64(now, headers.retry_after),
    }
}

/// The cache-aside, rate-limit-gated profile lookup service: the store,
/// the shared counters, and the cache lifetime each refreshed record is
/// stamped with.
pub struct GithubUserService {
    pub repository: GitHubUserRepository,
    pub limits: RateLimitState,
    pub cache_lifetime: i64,
}

impl GithubUserService {
    /// The service is well-formed when its store is, and record lifetimes
    /// do not run backwards.
    pub open spec fn wf(&self) -> bool {
        &&& self.repository.wf()
        &&& self.cache_lifetime >= 0
    }

    /// Whether the stored state forces a refresh for `name` at time `now`:
    /// no row, or a row whose expiry has passed.
    pub open spec fn needs_refresh(&self, name: Seq<char>, now: i64) -> bool {
        match find_by_username(self.repository.users@, name) {
            Some(user) => now >= user.expiration,
            None => true,
        }
    }

    /// The decision `get_by_username` takes at time `now`: the fresh stored
    /// record when there is one; otherwise the counters decide.
    pub open spec fn spec_plan(&self, name: Seq<char>, now: i64) -> FetchPlan {
        match find_by_username(self.repository.users@, name) {
            Some(user) => if now < user.expiration {
                FetchPlan::Hit(github_user_mapper::spec_to_model(user))
            } else {
                match spec_gate(self.limits, now) {
                    Some(e) => FetchPlan::Denied(e),
                    None => FetchPlan::CallUpstream,
                }
            },
            None => match spec_gate(self.limits, now) {
                Some(e) => FetchPlan::Denied(e),
                None => FetchPlan::CallUpstream,
            },
        }
    }

    /// A fresh service around an empty store: the counters start at their
    /// permissive defaults (a zero `remaining` with a window reset in the
    /// past does not block the first-ever call).
    pub fn new(cache_lifetime: i64) -> (r: Self)
        requires
            cache_lifetime >= 0,
        ensures
            r.wf(),
            r.repository.users@ =~= Seq::<entities::GithubUser>::empty(),
            r.limits == (RateLimitState { remaining: 0, reset: 0, retry_after: 0 }),
            r.cache_lifetime == cache_lifetime,
    {
        GithubUserService {
            repository: GitHubUserRepository::new(),
            limits: RateLimitState { remaining: 0, reset: 0, retry_after: 0 },
            cache_lifetime,
        }
    }

    /// Checks the shared counters alone, in the refresh protocol's order:
    /// the secondary cooldown wins over the quota window.
    pub fn gate_check(&self, now: i64) -> (r: Option<ServiceError>)
        ensures
            r == spec_gate(self.limits, now),
    {
        if now < self.limits.retry_after {
            Some(ServiceError::SecondaryRateLimit)
        } else if self.limits.remaining == 0 && now < self.limits.reset {
            Some(ServiceError::RateLimitExceeded)
        } else {
            None
        }
    }

    /// The read side of the lookup: serve the stored record while it is
    /// fresh, and otherwise decide between refusing (gate closed) and
    /// calling upstream. Returns `CallUpstream` exactly when the caller
    /// must fetch and then hand the response to
    /// [`apply_upstream_response`].
    pub fn get_by_username(&self, username: &str, now: i64) -> (r: FetchPlan)
        requires
            self.wf(),
        ensures
            r == self.spec_plan(username@, now),
    {
        let stored_user_option = self.repository.get_by_username(username);
        match stored_user_option {
            Some(user) => {
                if now < user.expiration {
                    FetchPlan::Hit(github_user_mapper::to_model(&user))
                } else {
                    match self.gate_check(now) {
                        Some(e) => FetchPlan::Denied(e),
                        None => FetchPlan::CallUpstream,
                    }
                }
            },
            None => match self.gate_check(now) {
                Some(e) => FetchPlan::Denied(e),
                None => FetchPlan::CallUpstream,
            },
        }
    }

    /// The lookup decision taken against the system clock: the decision
    /// together with the timestamp it was taken at, so the caller can
    /// complete a planned refresh against the same time.
    pub fn get_by_username_now(&self, username: &str) -> (r: (FetchPlan, i64))
        requires
            self.wf(),
        ensures
            r.0 == self.spec_plan(username@, r.1),
    {
        let now = crate::time::get_timestamp();
        let plan = self.get_by_username(username, now);
        (plan, now)
    }

    /// The write side of the refresh: whatever the upstream call came to,
    /// the shared counters take the response's rate-limit signals, all
    /// three together. On success the fetched profile is stamped with
    /// `now + cache_lifetime` and upserted, and the profile is returned;
    /// on failure the store is untouched and the failure is reported.
    pub fn apply_upstream_response(&mut self, now: i64, response: &UpstreamResponse) -> (r: Result<
        models::GithubUser,
        ServiceError,
    >)
        requires
            old(self).wf(),
        ensures
            final(self).wf(),
            final(self).limits == spec_limits_after(response.headers, now),
            final(self).cache_lifetime == old(self).cache_lifetime,
            match response.outcome {
                UpstreamOutcome::Success(user) => final(self).repository.users@ == spec_upsert(
                    old(self).repository.users@,
                    github_user_mapper::spec_to_entity(
                        user,
                        spec_sat_add_i64(now, old(self).cache_lifetime),
                    ),
                ) && r == Ok::<models::GithubUser, ServiceError>(user),
                UpstreamOutcome::Failure(status) => final(self).repository == old(self).repository
                    && r == Err::<models::GithubUser, ServiceError>(ServiceError::Upstream(status)),
            },
    {
        self.limits = RateLimitState {
            remaining: response.headers.remaining,
            reset: response.headers.reset,
            retry_after: sat_add_i64(now, response.headers.retry_after),
        };
        match &response.outcome {
            UpstreamOutcome::Success(user) => {
                let expiration = sat_add_i64(now, self.cache_lifetime);
                let entity = github_user_mapper::to_entity(user, expiration);
                let _ = self.repository.upsert(entity);
                Ok(user.clone())
            },
            UpstreamOutcome::Failure(status) => Err(ServiceError::Upstream(*status)),
        }
    }

    /// Reads a rate-limit header's integer value the way the upstream
    /// contract asks: a missing header, or one that is not a plain decimal
    /// integer in range, counts as 0 and never fails the call.
    pub fn get_int(value: Option<&str>) -> (r: i64)
        ensures
            r == match value {
                Some(s) => crate::numeric::spec_parse_i64_or_zero(s@),
                None => 0,
            },
    {
        match value {
            Some(s) => crate::numeric::parse_i64_or_zero(s),
            None => 0,
        }
    }
}

/// A fresh stored record is served as it stands: when the row found for
/// `name` has not expired, the lookup's decision is to return exactly that
/// row's profile — no gate is consulted and no upstream call is planned.
pub proof fn lemma_fresh_record_served(
    s: GithubUserService,
    name: Seq<char>,
    now: i64,
    user: entities::GithubUser,
)
    requires
        find_by_username(s.repository.users@, name) == Some(user),
        now < user.expiration,
    ensures
        s.spec_plan(name, now) == FetchPlan::Hit(github_user_mapper::spec_to_model(user)),
{
}

/// While the secondary cooldown is active, a lookup that cannot be served
/// from the store is refused outright, whatever `remaining` holds: the
/// decision is never to call upstream.
pub proof fn lemma_cooldown_blocks(s: GithubUserService, name: Seq<char>, now: i64)
    requires
        s.needs_refresh(name, now),
        now < s.limits.retry_after,
    ensures
        s.spec_plan(name, now) == FetchPlan::Denied(ServiceError::SecondaryRateLimit),
{
}

/// With the quota exhausted and the window still open, a lookup that
/// cannot be served from the store is refused: the decision is never to
/// call upstream.
pub proof fn lemma_quota_blocks(s: GithubUserService, name: Seq<char>, now: i64)
    requires
        s.needs_refresh(name, now),
        now >= s.limits.retry_after,
        s.limits.remaining == 0,
        now < s.limits.reset,
    ensures
        s.spec_plan(name, now) == FetchPlan::Denied(ServiceError::RateLimitExceeded),
{
}

/// With both gates open, a lookup that cannot be served from the store
/// decides to call upstream.
pub proof fn lemma_open_gate_calls_upstream(s: GithubUserService, name: Seq<char>, now: i64)
    requires
        s.needs_refresh(name, now),
        now >= s.limits.retry_after,
        !(s.limits.remaining == 0 && now < s.limits.reset),
    ensures
        s.spec_plan(name, now) == FetchPlan::CallUpstream,
{
}

/// After any upstream response — success or failure — the next check
/// reads exactly the response's signals: `remaining` and `reset` as they
/// arrived, and the cooldown deadline `now + retry_after`, which collapses
/// to `now` itself (no block) for a zero cooldown.
pub proof fn lemma_limits_follow_headers(headers: RateLimitHeaders, now: i64)
    requires
        i64::MIN <= now + headers.retry_after <= i64::MAX,
    ensures
        spec_limits_after(headers, now) == (RateLimitState {
            remaining: headers.remaining,
            reset: headers.reset,
            retry_after: (now + headers.retry_after) as i64,
        }),
        headers.retry_after == 0 ==> spec_limits_after(headers, now).retry_after == now,
{
}

/// A successful refresh leaves the store with exactly one row for the
/// fetched profile's id, carrying the fetched fields wholesale and the
/// expiry stamp `now + cache_lifetime` — this is the store
/// `apply_upstream_response` ensures on success.
pub proof fn lemma_refresh_persists_one_row(
    s: GithubUserService,
    now: i64,
    user: models::GithubUser,
)
    requires
        s.wf(),
        i64::MIN <= now + s.cache_lifetime <= i64::MAX,
    ensures
        ({
            let entity = github_user_mapper::spec_to_entity(user, (now + s.cache_lifetime) as i64);
            let after = spec_upsert(s.repository.users@, entity);
            &&& entity.id == user.id
            &&& entity.expiration == now + s.cache_lifetime
            &&& crate::github_user_repository::unique_ids(after)
            &&& exists|i: int| 0 <= i < after.len() && after[i] == entity
            &&& forall|i: int| 0 <= i < after.len() && after[i].id == user.id ==> after[i] == entity
            &&& crate::github_user_repository::find_by_id(after, user.id) == Some(entity)
            &&& entity == github_user_mapper::spec_to_entity(user, spec_sat_add_i64(now, s.cache_lifetime))
        }),
{
    let entity = github_user_mapper::spec_to_entity(user, (now + s.cache_lifetime) as i64);
    crate::github_user_repository::lemma_upsert_exactly_one_row(s.repository.users@, entity);
}

} // verus!
