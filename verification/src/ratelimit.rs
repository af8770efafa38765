//! Limits on how often logins and the admin page can be tried.
//!
//! With Redis all replicas share one token bucket per limit and client. Without
//! it, and whenever it does not answer, each replica falls back to a limiter of
//! its own.

use crate::config::Config;
use crate::error::Error;
use crate::text::{
    all_ascii, ascii_lower, colon_joined, join_with_colon, lowercase, to_lowercase_text, trim_text,
    trimmed,
};
use crate::token_bucket::{
    drained, full_credits, has_token, lemma_full_is_small, token_credits, Bucket,
};
use vstd::prelude::*;

verus! {

/// What is limited.
#[derive(Debug, PartialEq, Eq, Structural, Clone, Copy)]
pub enum LimitScope {
    /// Logins from an address.
    Login,
    /// Logins to an account.
    LoginAccount,
    /// Requests to the admin page from an address.
    Admin,
}

impl LimitScope {
    /// The name of the limit in the keys of buckets.
    pub open spec fn spec_name(self) -> Seq<char> {
        match self {
            LimitScope::Login => "login"@,
            LimitScope::LoginAccount => "login_acct"@,
            LimitScope::Admin => "admin"@,
        }
    }

    /// After how many seconds one more try is granted.
    pub open spec fn spec_seconds(self, config: Config) -> u64 {
        match self {
            LimitScope::Login => config.login_ratelimit_seconds,
            LimitScope::LoginAccount => config.login_account_ratelimit_seconds,
            LimitScope::Admin => config.admin_ratelimit_seconds,
        }
    }

    /// How many nanoseconds a try takes up.
    pub open spec fn period(self, config: Config) -> nat {
        (self.spec_seconds(config) * 1_000_000_000) as nat
    }

    /// How many tries are granted at once.
    pub open spec fn spec_burst(self, config: Config) -> u32 {
        match self {
            LimitScope::Login => config.login_ratelimit_max_burst,
            LimitScope::LoginAccount => config.login_account_ratelimit_max_burst,
            LimitScope::Admin => config.admin_ratelimit_max_burst,
        }
    }

    /// What a client that is refused is told.
    pub open spec fn spec_refusal(self) -> Seq<char> {
        match self {
            LimitScope::Login => "Too many login requests"@,
            LimitScope::LoginAccount => "Too many login requests"@,
            LimitScope::Admin => "Too many admin requests"@,
        }
    }

    /// The name of the limit in the keys of buckets.
    pub fn name(self) -> (name: &'static str)
        ensures
            name@ == self.spec_name(),
    {
        match self {
            LimitScope::Login => "login",
            LimitScope::LoginAccount => "login_acct",
            LimitScope::Admin => "admin",
        }
    }

    /// After how many seconds one more try is granted.
    pub fn seconds(self, config: &Config) -> (seconds: u64)
        ensures
            seconds == self.spec_seconds(*config),
    {
        match self {
            LimitScope::Login => config.login_ratelimit_seconds,
            LimitScope::LoginAccount => config.login_account_ratelimit_seconds,
            LimitScope::Admin => config.admin_ratelimit_seconds,
        }
    }

    /// How many tries are granted at once.
    pub fn burst(self, config: &Config) -> (burst: u32)
        ensures
            burst == self.spec_burst(*config),
    {
        match self {
            LimitScope::Login => config.login_ratelimit_max_burst,
            LimitScope::LoginAccount => config.login_account_ratelimit_max_burst,
            LimitScope::Admin => config.admin_ratelimit_max_burst,
        }
    }
}

/// The key of the bucket of one client under one limit.
pub open spec fn bucket_key(prefix: Seq<char>, scope: LimitScope, id: Seq<char>) -> Seq<char> {
    colon_joined(colon_joined(colon_joined(prefix, "rl"@), scope.spec_name()), id)
}

/// What Redis is asked: to take a token out of a bucket that holds so many and
/// gains one every so many seconds.
#[derive(Debug)]
pub struct BucketRequest {
    pub key: String,
    pub capacity: u32,
    pub refill_seconds: u64,
}

/// Asks for a token out of the bucket of a client.
pub fn bucket_request(config: &Config, scope: LimitScope, id: &str) -> (request: BucketRequest)
    ensures
        request.key@ == bucket_key(config.redis_channel_prefix@, scope, id@),
        request.capacity == scope.spec_burst(*config),
        request.refill_seconds == scope.spec_seconds(*config),
{
    let limits = join_with_colon(&config.redis_channel_prefix, "rl");
    BucketRequest {
        key: join_with_colon(&join_with_colon(&limits, scope.name()), id),
        capacity: scope.burst(config),
        refill_seconds: scope.seconds(config),
    }
}

/// Whether the shared bucket granted a token, given the reply of Redis. There is no
/// verdict where there is no Redis or the request failed.
pub fn check_redis<E>(reply: Option<Result<i64, E>>) -> (verdict: Option<bool>)
    ensures
        verdict is Some <==> reply is Some && reply->0 is Ok,
        verdict is Some ==> verdict->0 == (reply->0->Ok_0 == 1),
{
    match reply {
        Some(Ok(allowed)) => Some(allowed == 1),
        Some(Err(_)) => None,
        None => None,
    }
}

/// A limiter in the memory of the process: the keyed limiter of `governor`.
#[verifier::external_body]
pub struct LocalLimiter {
    inner: governor::RateLimiter<
        String,
        governor::state::keyed::DashMapStateStore<String>,
        governor::clock::DefaultClock,
    >,
}

/// When each key that was granted a check is due again, in nanoseconds since the
/// limiter was made: its theoretical arrival time.
pub uninterp spec fn limiter_arrivals(limiter: LocalLimiter) -> Map<Seq<char>, nat>;

/// How many nanoseconds each check of a key takes up.
pub uninterp spec fn limiter_period(limiter: LocalLimiter) -> nat;

/// How many checks of a key a limiter grants at once.
pub uninterp spec fn limiter_burst(limiter: LocalLimiter) -> nat;

/// No key was granted a check.
pub open spec fn no_arrivals() -> Map<Seq<char>, nat> {
    Map::empty()
}

/// When a key is due; one that was never granted a check is due now.
pub open spec fn arrival_of(arrivals: Map<Seq<char>, nat>, key: Seq<char>, now: nat) -> nat {
    if arrivals.contains_key(key) {
        arrivals[key]
    } else {
        now
    }
}

/// The later of two times.
pub open spec fn later(a: nat, b: nat) -> nat {
    if a < b {
        b
    } else {
        a
    }
}

/// Whether this is what a check of a key at a given time comes to: it is granted
/// unless the key is due later than the burst makes up for, and only a check that
/// is granted moves the time when the key is due.
pub open spec fn checked_at(
    period: nat,
    burst: nat,
    before: Map<Seq<char>, nat>,
    key: Seq<char>,
    now: nat,
    allowed: bool,
    after: Map<Seq<char>, nat>,
) -> bool {
    let arrival = arrival_of(before, key, now);
    &&& allowed <==> now + period * (burst - 1) >= arrival
    &&& after == if allowed {
        before.insert(key, later(arrival, now) + period)
    } else {
        before
    }
}

/// Whether a limiter can be made: `governor` accepts neither a period nor a burst
/// of nothing, and counts in 64 bits of nanoseconds.
pub open spec fn quota_fits(seconds: u64, burst: u32) -> bool {
    0 < seconds && 0 < burst && seconds * burst <= 9_000_000_000
}

/// `governor::RateLimiter::keyed` with the quota of one check every so many seconds
/// and a burst: a limiter on which nothing was checked.
#[verifier::external_body]
fn new_limiter(seconds: u64, burst: u32) -> (limiter: LocalLimiter)
    requires
        quota_fits(seconds, burst),
    ensures
        limiter_arrivals(limiter) == no_arrivals(),
        limiter_period(limiter) == seconds * 1_000_000_000,
        limiter_burst(limiter) == burst,
{
    let burst = std::num::NonZeroU32::new(burst).unwrap();
    let period = governor::Quota::with_period(std::time::Duration::from_secs(seconds)).unwrap();
    LocalLimiter { inner: governor::RateLimiter::keyed(period.allow_burst(burst)) }
}

/// `governor::RateLimiter::check_key`: applies the generic cell rate algorithm to the
/// key at the time that the limiter's clock shows. What the clock shows is left
/// open.
#[verifier::external_body]
fn check_limiter(limiter: &mut LocalLimiter, key: &String) -> (allowed: bool)
    ensures
        limiter_period(*final(limiter)) == limiter_period(*old(limiter)),
        limiter_burst(*final(limiter)) == limiter_burst(*old(limiter)),
        exists|now: nat| #[trigger]
            checked_at(
                limiter_period(*old(limiter)),
                limiter_burst(*old(limiter)),
                limiter_arrivals(*old(limiter)),
                key@,
                now,
                allowed,
                limiter_arrivals(*final(limiter)),
            ),
{
    limiter.inner.check_key(key).is_ok()
}

/// The limiters of a replica. Each is made when it is first needed.
pub struct LocalLimits {
    login: Option<LocalLimiter>,
    login_account: Option<LocalLimiter>,
    admin: Option<LocalLimiter>,
}

impl LocalLimits {
    closed spec fn limiter(&self, scope: LimitScope) -> Option<LocalLimiter> {
        match scope {
            LimitScope::Login => self.login,
            LimitScope::LoginAccount => self.login_account,
            LimitScope::Admin => self.admin,
        }
    }

    /// When each client that was granted a try under a limit is due again.
    pub closed spec fn arrivals(&self, scope: LimitScope) -> Map<Seq<char>, nat> {
        match self.limiter(scope) {
            Some(limiter) => limiter_arrivals(limiter),
            None => no_arrivals(),
        }
    }

    /// Whether the limiters that were made go by these settings.
    pub closed spec fn made_for(&self, config: Config) -> bool {
        forall|scope: LimitScope|
            (#[trigger] self.limiter(scope)) is Some ==> {
                &&& limiter_burst(self.limiter(scope)->0) == scope.spec_burst(config)
                &&& limiter_period(self.limiter(scope)->0) == scope.period(config)
            }
    }

    /// No limiter is made yet.
    pub fn new() -> (limits: LocalLimits)
        ensures
            forall|scope: LimitScope| #[trigger] limits.arrivals(scope) == no_arrivals(),
            forall|config: Config| #[trigger] limits.made_for(config),
    {
        LocalLimits { login: None, login_account: None, admin: None }
    }

    /// Checks a client on the replica's own limiter.
    pub fn check(&mut self, config: &Config, scope: LimitScope, id: &String) -> (allowed: bool)
        requires
            old(self).made_for(*config),
            quota_fits(scope.spec_seconds(*config), scope.spec_burst(*config)),
        ensures
            final(self).made_for(*config),
            forall|other: LimitScope|
                other != scope ==> #[trigger] final(self).arrivals(other) == old(self).arrivals(
                    other,
                ),
            exists|now: nat| #[trigger]
                checked_at(
                    scope.period(*config),
                    scope.spec_burst(*config) as nat,
                    old(self).arrivals(scope),
                    id@,
                    now,
                    allowed,
                    final(self).arrivals(scope),
                ),
    {
        let made = match scope {
            LimitScope::Login => self.login.take(),
            LimitScope::LoginAccount => self.login_account.take(),
            LimitScope::Admin => self.admin.take(),
        };
        assert(made == old(self).limiter(scope));
        let mut limiter = match made {
            Some(limiter) => limiter,
            None => new_limiter(scope.seconds(config), scope.burst(config)),
        };
        assert(limiter_burst(limiter) == scope.spec_burst(*config));
        assert(limiter_period(limiter) == scope.period(*config));
        assert(limiter_arrivals(limiter) == old(self).arrivals(scope));
        let allowed = check_limiter(&mut limiter, id);
        let ghost now = choose|now: nat| #[trigger]
            checked_at(
                scope.period(*config),
                scope.spec_burst(*config) as nat,
                old(self).arrivals(scope),
                id@,
                now,
                allowed,
                limiter_arrivals(limiter),
            );
        match scope {
            LimitScope::Login => {
                self.login = Some(limiter);
            },
            LimitScope::LoginAccount => {
                self.login_account = Some(limiter);
            },
            LimitScope::Admin => {
                self.admin = Some(limiter);
            },
        }
        proof {
            assert forall|other: LimitScope| other != scope implies #[trigger] self.limiter(other)
                == old(self).limiter(other) by {}
            assert(self.limiter(scope) == Some(limiter));
            assert forall|any: LimitScope| (#[trigger] self.limiter(any)) is Some implies {
                &&& limiter_burst(self.limiter(any)->0) == any.spec_burst(*config)
                &&& limiter_period(self.limiter(any)->0) == any.period(*config)
            } by {
                assert(old(self).limiter(any) is Some ==> limiter_burst(old(self).limiter(any)->0)
                    == any.spec_burst(*config));
            }
            assert forall|other: LimitScope| other != scope implies #[trigger] self.arrivals(other)
                == old(self).arrivals(other) by {
                assert(self.limiter(other) == old(self).limiter(other));
            }
            assert(checked_at(
                scope.period(*config),
                scope.spec_burst(*config) as nat,
                old(self).arrivals(scope),
                id@,
                now,
                allowed,
                self.arrivals(scope),
            ));
        }
        allowed
    }
}

/// What a client is told, given whether it may go on.
pub fn limit_outcome(scope: LimitScope, allowed: bool) -> (outcome: Result<(), Error>)
    ensures
        outcome is Ok <==> allowed,
        outcome is Err ==> outcome->Err_0.refuses_with(scope.spec_refusal(), 429),
{
    if allowed {
        Ok(())
    } else {
        let message = match scope {
            LimitScope::Login => "Too many login requests",
            LimitScope::LoginAccount => "Too many login requests",
            LimitScope::Admin => "Too many admin requests",
        };
        Err(Error::status(message, 429))
    }
}

/// What a check of a client comes to, the clock of the replica's own limiter showing
/// a given time: the verdict of the shared bucket decides where there is one, and
/// nothing changes here then. Otherwise the client is let on exactly when the
/// replica's own limiter grants the check.
pub open spec fn limited_at(
    config: Config,
    scope: LimitScope,
    verdict: Option<bool>,
    id: Seq<char>,
    now: nat,
    before: LocalLimits,
    after: LocalLimits,
    outcome: Result<(), Error>,
) -> bool {
    &&& outcome is Err ==> outcome->Err_0.refuses_with(scope.spec_refusal(), 429)
    &&& match verdict {
        Some(allowed) => after == before && (outcome is Ok <==> allowed),
        None => {
            &&& checked_at(
                scope.period(config),
                scope.spec_burst(config) as nat,
                before.arrivals(scope),
                id,
                now,
                outcome is Ok,
                after.arrivals(scope),
            )
            &&& forall|other: LimitScope|
                other != scope ==> #[trigger] after.arrivals(other) == before.arrivals(other)
        },
    }
}

/// What a check of a client comes to, whatever time it is.
pub open spec fn limited(
    config: Config,
    scope: LimitScope,
    verdict: Option<bool>,
    id: Seq<char>,
    before: LocalLimits,
    after: LocalLimits,
    outcome: Result<(), Error>,
) -> bool {
    exists|now: nat| #[trigger]
        limited_at(config, scope, verdict, id, now, before, after, outcome)
}

fn check_limit(
    limits: &mut LocalLimits,
    config: &Config,
    scope: LimitScope,
    verdict: Option<bool>,
    id: &String,
) -> (outcome: Result<(), Error>)
    requires
        old(limits).made_for(*config),
        verdict is None ==> quota_fits(scope.spec_seconds(*config), scope.spec_burst(*config)),
    ensures
        final(limits).made_for(*config),
        limited(*config, scope, verdict, id@, *old(limits), *final(limits), outcome),
{
    let allowed = match verdict {
        Some(allowed) => allowed,
        None => limits.check(config, scope, id),
    };
    let outcome = limit_outcome(scope, allowed);
    proof {
        let now = choose|now: nat| #[trigger]
            checked_at(
                scope.period(*config),
                scope.spec_burst(*config) as nat,
                old(limits).arrivals(scope),
                id@,
                now,
                allowed,
                limits.arrivals(scope),
            );
        assert(limited_at(*config, scope, verdict, id@, now, *old(limits), *limits, outcome));
    }
    outcome
}

/// Limits logins from an address.
pub fn check_limit_login(
    limits: &mut LocalLimits,
    config: &Config,
    verdict: Option<bool>,
    ip: &String,
) -> (outcome: Result<(), Error>)
    requires
        old(limits).made_for(*config),
        verdict is None ==> quota_fits(
            config.login_ratelimit_seconds,
            config.login_ratelimit_max_burst,
        ),
    ensures
        final(limits).made_for(*config),
        limited(
            *config,
            LimitScope::Login,
            verdict,
            ip@,
            *old(limits),
            *final(limits),
            outcome,
        ),
        verdict matches Some(allowed) ==> (outcome is Ok <==> allowed),
        outcome is Err ==> outcome->Err_0.refuses_with("Too many login requests"@, 429),
{
    check_limit(limits, config, LimitScope::Login, verdict, ip)
}

/// The form of a username by which its account is limited: without white space
/// around it and in lower case. The account is then known by a hash of it.
pub fn normalized_username(username: &str) -> (normalized: String)
    ensures
        normalized@ == lowercase(trimmed(username@)),
        all_ascii(trimmed(username@)) ==> normalized@ == trimmed(username@).map_values(
            |c: char| ascii_lower(c),
        ),
{
    to_lowercase_text(trim_text(username))
}

/// Per-account login throttle. Defends distributed brute force (many IPs, one
/// account) that the per-IP limiter cannot see. A token is consumed on every
/// attempt. The account is known by the hash of its normalized username, so that
/// no name lands in a key.
pub fn check_limit_login_account(
    limits: &mut LocalLimits,
    config: &Config,
    verdict: Option<bool>,
    account: &String,
) -> (outcome: Result<(), Error>)
    requires
        old(limits).made_for(*config),
        verdict is None ==> quota_fits(
            config.login_account_ratelimit_seconds,
            config.login_account_ratelimit_max_burst,
        ),
    ensures
        final(limits).made_for(*config),
        limited(
            *config,
            LimitScope::LoginAccount,
            verdict,
            account@,
            *old(limits),
            *final(limits),
            outcome,
        ),
        verdict matches Some(allowed) ==> (outcome is Ok <==> allowed),
        outcome is Err ==> outcome->Err_0.refuses_with("Too many login requests"@, 429),
{
    check_limit(limits, config, LimitScope::LoginAccount, verdict, account)
}

/// Limits requests to the admin page from an address.
pub fn check_limit_admin(
    limits: &mut LocalLimits,
    config: &Config,
    verdict: Option<bool>,
    ip: &String,
) -> (outcome: Result<(), Error>)
    requires
        old(limits).made_for(*config),
        verdict is None ==> quota_fits(
            config.admin_ratelimit_seconds,
            config.admin_ratelimit_max_burst,
        ),
    ensures
        final(limits).made_for(*config),
        limited(
            *config,
            LimitScope::Admin,
            verdict,
            ip@,
            *old(limits),
            *final(limits),
            outcome,
        ),
        verdict matches Some(allowed) ==> (outcome is Ok <==> allowed),
        outcome is Err ==> outcome->Err_0.refuses_with("Too many admin requests"@, 429),
{
    check_limit(limits, config, LimitScope::Admin, verdict, ip)
}

/// No two clients share a bucket, nor does one client under two limits.
pub proof fn law_buckets_differ(
    prefix: Seq<char>,
    scope: LimitScope,
    id: Seq<char>,
    other: LimitScope,
    other_id: Seq<char>,
)
    ensures
        bucket_key(prefix, scope, id) == bucket_key(prefix, other, other_id) ==> scope == other
            && id == other_id,
{
    let stem = colon_joined(prefix, "rl"@);
    let a = bucket_key(prefix, scope, id);
    let b = bucket_key(prefix, other, other_id);
    if a == b {
        let start = stem.len() + 1int;
        assert(a.subrange(start, a.len() as int) =~= colon_joined(scope.spec_name(), id));
        assert(b.subrange(start, b.len() as int) =~= colon_joined(other.spec_name(), other_id));
        lemma_scope_and_client(scope, id, other, other_id);
    }
}

proof fn lemma_scope_and_client(
    scope: LimitScope,
    id: Seq<char>,
    other: LimitScope,
    other_id: Seq<char>,
)
    requires
        colon_joined(scope.spec_name(), id) == colon_joined(other.spec_name(), other_id),
    ensures
        scope == other,
        id == other_id,
{
    reveal_strlit("login");
    reveal_strlit("login_acct");
    reveal_strlit("admin");
    let own = scope.spec_name();
    let theirs = other.spec_name();
    let a = colon_joined(own, id);
    let b = colon_joined(theirs, other_id);
    assert(a[0] == own[0] && b[0] == theirs[0]);
    assert(a[own.len() as int] == ':' && b[theirs.len() as int] == ':');
    assert(own.len() > 5 ==> a[5] == own[5]);
    assert(theirs.len() > 5 ==> b[5] == theirs[5]);
    assert(scope == other);
    let start = own.len() + 1int;
    assert(a.subrange(start, a.len() as int) =~= id);
    assert(b.subrange(start, b.len() as int) =~= other_id);
}

/// Whether some checks of one client without a verdict follow one another at given
/// times: each starts from the limiters that the one before it left.
pub open spec fn tries_in_a_row(
    config: Config,
    scope: LimitScope,
    id: Seq<char>,
    times: Seq<nat>,
    states: Seq<LocalLimits>,
    outcomes: Seq<Result<(), Error>>,
) -> bool {
    &&& times.len() == outcomes.len()
    &&& states.len() == outcomes.len() + 1
    &&& forall|k: int|
        0 <= k < outcomes.len() ==> limited_at(
            config,
            scope,
            None,
            id,
            times[k],
            states[k],
            states[k + 1],
            #[trigger] outcomes[k],
        )
}

proof fn lemma_early_tries(
    config: Config,
    scope: LimitScope,
    id: Seq<char>,
    times: Seq<nat>,
    states: Seq<LocalLimits>,
    outcomes: Seq<Result<(), Error>>,
    k: int,
)
    requires
        tries_in_a_row(config, scope, id, times, states, outcomes),
        !states[0].arrivals(scope).contains_key(id),
        forall|i: int, j: int| 0 <= i <= j < times.len() ==> times[i] <= times[j],
        0 <= k < outcomes.len(),
        k < scope.spec_burst(config),
    ensures
        outcomes[k] is Ok,
        states[k + 1].arrivals(scope).contains_key(id),
        states[k + 1].arrivals(scope)[id] <= times[k] + (k + 1) * scope.period(config),
        times[k] == times[0] ==> states[k + 1].arrivals(scope)[id] == times[k] + (k + 1)
            * scope.period(config),
    decreases k,
{
    let period = scope.period(config);
    let burst = scope.spec_burst(config) as nat;
    assert(limited_at(config, scope, None, id, times[k], states[k], states[k + 1], outcomes[k]));
    assert(k * period <= period * (burst - 1)) by (nonlinear_arith)
        requires
            0 <= k <= burst - 1,
            0 <= period,
    ;
    assert((k + 1) * period == k * period + period) by (nonlinear_arith);
    let before = states[k].arrivals(scope);
    let arrival = arrival_of(before, id, times[k]);
    if k > 0 {
        lemma_early_tries(config, scope, id, times, states, outcomes, k - 1);
        assert(times[0] <= times[k - 1] <= times[k]);
        assert(arrival == before[id]);
        assert(((k - 1) + 1) * period == k * period);
    } else {
        assert(k * period == 0) by (nonlinear_arith)
            requires
                k == 0,
        ;
        assert(arrival == times[k]);
    }
    assert(arrival <= times[k] + k * period);
    assert(outcomes[k] is Ok);
    assert(states[k + 1].arrivals(scope)[id] == later(arrival, times[k]) + period);
}

/// While Redis does not answer and the clock does not go back, as many tries of a
/// new client as the burst allows are granted.
pub proof fn law_first_tries_are_granted(
    config: Config,
    scope: LimitScope,
    id: Seq<char>,
    times: Seq<nat>,
    states: Seq<LocalLimits>,
    outcomes: Seq<Result<(), Error>>,
    k: int,
)
    requires
        tries_in_a_row(config, scope, id, times, states, outcomes),
        !states[0].arrivals(scope).contains_key(id),
        forall|i: int, j: int| 0 <= i <= j < times.len() ==> times[i] <= times[j],
        0 <= k < outcomes.len(),
        k < scope.spec_burst(config),
    ensures
        outcomes[k] is Ok,
{
    lemma_early_tries(config, scope, id, times, states, outcomes, k);
}

/// The try at one instant that goes beyond the burst is refused.
pub proof fn law_try_beyond_the_burst_is_refused(
    config: Config,
    scope: LimitScope,
    id: Seq<char>,
    times: Seq<nat>,
    states: Seq<LocalLimits>,
    outcomes: Seq<Result<(), Error>>,
    k: int,
)
    requires
        tries_in_a_row(config, scope, id, times, states, outcomes),
        !states[0].arrivals(scope).contains_key(id),
        forall|i: int| 0 <= i < times.len() ==> #[trigger] times[i] == times[0],
        0 <= k < outcomes.len(),
        k == scope.spec_burst(config),
        0 < scope.spec_seconds(config),
        0 < scope.spec_burst(config),
    ensures
        outcomes[k] is Err,
        outcomes[k]->Err_0.refuses_with(scope.spec_refusal(), 429),
{
    let period = scope.period(config);
    lemma_early_tries(config, scope, id, times, states, outcomes, k - 1);
    assert(limited_at(config, scope, None, id, times[k], states[k], states[k + 1], outcomes[k]));
    assert(k * period == period * (k - 1) + period) by (nonlinear_arith);
}

/// From the same arrivals, a check of the same client with the same verdict at the
/// same time comes to the same, whatever the other limits hold.
pub proof fn law_limit_depends_on_nothing_else(
    config: Config,
    scope: LimitScope,
    verdict: Option<bool>,
    id: Seq<char>,
    now: nat,
    before: LocalLimits,
    after: LocalLimits,
    outcome: Result<(), Error>,
    other_before: LocalLimits,
    other_after: LocalLimits,
    other_outcome: Result<(), Error>,
)
    requires
        before.arrivals(scope) == other_before.arrivals(scope),
        limited_at(config, scope, verdict, id, now, before, after, outcome),
        limited_at(config, scope, verdict, id, now, other_before, other_after, other_outcome),
    ensures
        outcome is Ok <==> other_outcome is Ok,
        outcome is Err ==> outcome->Err_0.refuses_with(scope.spec_refusal(), 429)
            && other_outcome->Err_0.refuses_with(scope.spec_refusal(), 429),
        after.arrivals(scope) == other_after.arrivals(scope),
{
}

/// One check of a client and what came of it.
pub struct Check {
    pub scope: LimitScope,
    pub verdict: Option<bool>,
    pub id: Seq<char>,
    pub now: nat,
    pub outcome: Result<(), Error>,
}

/// Whether some checks follow one another: each starts from the limiters that the
/// one before it left.
pub open spec fn checks_in_a_row(
    config: Config,
    checks: Seq<Check>,
    states: Seq<LocalLimits>,
) -> bool {
    &&& states.len() == checks.len() + 1
    &&& forall|k: int|
        0 <= k < checks.len() ==> limited_at(
            config,
            (#[trigger] checks[k]).scope,
            checks[k].verdict,
            checks[k].id,
            checks[k].now,
            states[k],
            states[k + 1],
            checks[k].outcome,
        )
}

proof fn lemma_checks_leave_other_limits(
    config: Config,
    checks: Seq<Check>,
    states: Seq<LocalLimits>,
    scope: LimitScope,
    n: int,
)
    requires
        checks_in_a_row(config, checks, states),
        forall|k: int| 0 <= k < checks.len() ==> (#[trigger] checks[k]).scope != scope,
        0 <= n <= checks.len(),
    ensures
        states[n].arrivals(scope) == states[0].arrivals(scope),
    decreases n,
{
    if n > 0 {
        lemma_checks_leave_other_limits(config, checks, states, scope, n - 1);
        assert(checks[n - 1].scope != scope);
        assert(states[n].arrivals(scope) == states[n - 1].arrivals(scope));
    }
}

/// However often logins were tried before, from addresses or to accounts and with
/// whatever outcome, a request to the admin page is answered as it would have been
/// without that, and changes nothing that limits logins.
pub proof fn law_admin_limit_is_its_own(
    config: Config,
    logins: Seq<Check>,
    states: Seq<LocalLimits>,
    verdict: Option<bool>,
    ip: Seq<char>,
    now: nat,
    after: LocalLimits,
    outcome: Result<(), Error>,
    after_alone: LocalLimits,
    outcome_alone: Result<(), Error>,
)
    requires
        checks_in_a_row(config, logins, states),
        forall|k: int| 0 <= k < logins.len() ==> (#[trigger] logins[k]).scope != LimitScope::Admin,
        limited_at(config, LimitScope::Admin, verdict, ip, now, states.last(), after, outcome),
        limited_at(
            config,
            LimitScope::Admin,
            verdict,
            ip,
            now,
            states.first(),
            after_alone,
            outcome_alone,
        ),
    ensures
        outcome is Ok <==> outcome_alone is Ok,
        outcome is Err ==> outcome->Err_0.refuses_with("Too many admin requests"@, 429)
            && outcome_alone->Err_0.refuses_with("Too many admin requests"@, 429),
        after.arrivals(LimitScope::Admin) == after_alone.arrivals(LimitScope::Admin),
        after.arrivals(LimitScope::Login) == states.last().arrivals(LimitScope::Login),
        after.arrivals(LimitScope::LoginAccount) == states.last().arrivals(
            LimitScope::LoginAccount,
        ),
{
    lemma_checks_leave_other_limits(
        config,
        logins,
        states,
        LimitScope::Admin,
        logins.len() as int,
    );
}

/// The name by which an account is limited: a hash of the normalized username.
pub open spec fn account_id(hash: spec_fn(Seq<char>) -> Seq<char>, username: Seq<char>) -> Seq<
    char,
> {
    hash(lowercase(trimmed(username)))
}

/// Two spellings of a username with the same normalized form draw on one bucket, and
/// from the same limiters at the same time both get the same answer and leave the
/// limiters alike, whichever hash accounts are known by.
pub proof fn law_spellings_share_a_limit(
    config: Config,
    hash: spec_fn(Seq<char>) -> Seq<char>,
    username: Seq<char>,
    spelling: Seq<char>,
    verdict: Option<bool>,
    now: nat,
    before: LocalLimits,
    after: LocalLimits,
    outcome: Result<(), Error>,
    other_after: LocalLimits,
    other_outcome: Result<(), Error>,
)
    requires
        lowercase(trimmed(username)) == lowercase(trimmed(spelling)),
        limited_at(
            config,
            LimitScope::LoginAccount,
            verdict,
            account_id(hash, username),
            now,
            before,
            after,
            outcome,
        ),
        limited_at(
            config,
            LimitScope::LoginAccount,
            verdict,
            account_id(hash, spelling),
            now,
            before,
            other_after,
            other_outcome,
        ),
    ensures
        bucket_key(
            config.redis_channel_prefix@,
            LimitScope::LoginAccount,
            account_id(hash, username),
        ) == bucket_key(
            config.redis_channel_prefix@,
            LimitScope::LoginAccount,
            account_id(hash, spelling),
        ),
        outcome is Ok <==> other_outcome is Ok,
        outcome is Err ==> outcome->Err_0.refuses_with("Too many login requests"@, 429)
            && other_outcome->Err_0.refuses_with("Too many login requests"@, 429),
        forall|scope: LimitScope| #[trigger] after.arrivals(scope) == other_after.arrivals(scope),
{
    assert forall|scope: LimitScope| #[trigger] after.arrivals(scope) == other_after.arrivals(
        scope,
    ) by {
        if scope != LimitScope::LoginAccount {
            assert(after.arrivals(scope) == before.arrivals(scope));
            assert(other_after.arrivals(scope) == before.arrivals(scope));
        }
    }
}

/// Whether a shared bucket and a replica's own limiter hold the same of a client:
/// what the bucket lacks is the time by which the client is due later than the
/// bucket was counted.
pub open spec fn holds_the_same(
    bucket: Option<Bucket>,
    arrivals: Map<Seq<char>, nat>,
    id: Seq<char>,
    capacity: u32,
    seconds: u64,
) -> bool {
    match bucket {
        None => !arrivals.contains_key(id),
        Some(kept) => {
            &&& arrivals.contains_key(id)
            &&& kept.credits <= full_credits(capacity, seconds)
            &&& (full_credits(capacity, seconds) - kept.credits) * 1_000_000 == later(
                arrivals[id],
                (kept.counted_at * 1_000_000) as nat,
            ) - kept.counted_at * 1_000_000
        },
    }
}

/// A replica's own limiter has the quota of the shared bucket: where both hold the
/// same of a client, asked at the same time, both grant or both refuse, and hold the
/// same afterwards.
pub proof fn law_own_limiter_has_the_shared_quota(
    bucket: Option<Bucket>,
    before: Map<Seq<char>, nat>,
    id: Seq<char>,
    capacity: u32,
    seconds: u64,
    milliseconds: u64,
    allowed: bool,
    after: Map<Seq<char>, nat>,
)
    requires
        0 < seconds,
        0 < capacity,
        holds_the_same(bucket, before, id, capacity, seconds),
        bucket is Some ==> bucket->0.counted_at <= milliseconds,
        checked_at(
            (seconds * 1_000_000_000) as nat,
            capacity as nat,
            before,
            id,
            (milliseconds * 1_000_000) as nat,
            allowed,
            after,
        ),
    ensures
        allowed == has_token(bucket, capacity, seconds, milliseconds),
        holds_the_same(
            Some(drained(bucket, capacity, seconds, milliseconds)),
            after,
            id,
            capacity,
            seconds,
        ),
{
    lemma_full_is_small(capacity, seconds);
    let token = token_credits(seconds);
    let period = seconds * 1_000_000_000;
    assert(period == token * 1_000_000);
    assert(period * (capacity - 1) == full_credits(capacity, seconds) * 1_000_000 - token
        * 1_000_000) by (nonlinear_arith)
        requires
            period == token * 1_000_000,
            full_credits(capacity, seconds) == capacity * token,
    ;
    assert(token <= capacity * token) by (nonlinear_arith)
        requires
            1 <= capacity,
            0 < token,
    ;
}

/// Each limit goes by its own settings, is kept under its own name and refuses in its
/// own words.
pub proof fn law_limits_go_by_their_settings(config: Config)
    ensures
        LimitScope::Login.spec_seconds(config) == config.login_ratelimit_seconds,
        LimitScope::Login.spec_burst(config) == config.login_ratelimit_max_burst,
        LimitScope::Login.spec_name() == "login"@,
        LimitScope::Login.spec_refusal() == "Too many login requests"@,
        LimitScope::LoginAccount.spec_seconds(config) == config.login_account_ratelimit_seconds,
        LimitScope::LoginAccount.spec_burst(config) == config.login_account_ratelimit_max_burst,
        LimitScope::LoginAccount.spec_name() == "login_acct"@,
        LimitScope::LoginAccount.spec_refusal() == "Too many login requests"@,
        LimitScope::Admin.spec_seconds(config) == config.admin_ratelimit_seconds,
        LimitScope::Admin.spec_burst(config) == config.admin_ratelimit_max_burst,
        LimitScope::Admin.spec_name() == "admin"@,
        LimitScope::Admin.spec_refusal() == "Too many admin requests"@,
        forall|scope: LimitScope| #[trigger]
            scope.period(config) == 1_000_000_000 * scope.spec_seconds(config),
{
}

/// How the key of a bucket is spelled.
pub proof fn law_bucket_key_is_spelled(prefix: Seq<char>, id: Seq<char>)
    ensures
        bucket_key(prefix, LimitScope::Login, id) == prefix + ":rl:login:"@ + id,
        bucket_key(prefix, LimitScope::LoginAccount, id) == prefix + ":rl:login_acct:"@ + id,
        bucket_key(prefix, LimitScope::Admin, id) == prefix + ":rl:admin:"@ + id,
{
    reveal_strlit("rl");
    reveal_strlit("login");
    reveal_strlit("login_acct");
    reveal_strlit("admin");
    reveal_strlit(":rl:login:");
    reveal_strlit(":rl:login_acct:");
    reveal_strlit(":rl:admin:");
    assert(bucket_key(prefix, LimitScope::Login, id) =~= prefix + ":rl:login:"@ + id);
    assert(bucket_key(prefix, LimitScope::LoginAccount, id) =~= prefix + ":rl:login_acct:"@ + id);
    assert(bucket_key(prefix, LimitScope::Admin, id) =~= prefix + ":rl:admin:"@ + id);
}

/// A check of a client is granted exactly where the client was never granted one, or is
/// due by the time that the burst makes up for. A granted check puts off by one period
/// when the client is due, from then or from now, whichever is later; a refused one
/// changes nothing; and no other client is affected by either.
pub proof fn law_check_goes_by_the_arrival(
    period: nat,
    burst: nat,
    before: Map<Seq<char>, nat>,
    id: Seq<char>,
    now: nat,
    allowed: bool,
    after: Map<Seq<char>, nat>,
    other: Seq<char>,
)
    requires
        0 < burst,
        checked_at(period, burst, before, id, now, allowed, after),
    ensures
        allowed <==> !before.contains_key(id) || before[id] <= now + period * (burst - 1),
        !allowed ==> after == before,
        allowed ==> after.contains_key(id),
        allowed && before.contains_key(id) && before[id] >= now ==> after[id] == before[id]
            + period,
        allowed && (!before.contains_key(id) || before[id] <= now) ==> after[id] == now + period,
        other != id ==> (after.contains_key(other) <==> before.contains_key(other)),
        other != id && before.contains_key(other) ==> after[other] == before[other],
        !no_arrivals().contains_key(other),
{
    assert(period * (burst - 1) >= 0) by (nonlinear_arith)
        requires
            0 < burst,
            0 <= period,
    ;
}

/// Under every limit the verdict of the shared bucket is final: where there is one the
/// client is let on exactly if it says so, and the replica's own limiters stay as they
/// are. Whoever is refused is refused with the status for too many requests.
pub proof fn law_verdict_is_final(
    config: Config,
    scope: LimitScope,
    verdict: Option<bool>,
    id: Seq<char>,
    before: LocalLimits,
    after: LocalLimits,
    outcome: Result<(), Error>,
)
    requires
        limited(config, scope, verdict, id, before, after, outcome),
    ensures
        verdict matches Some(allowed) ==> (outcome is Ok <==> allowed) && after == before,
        outcome is Err && scope != LimitScope::Admin ==> outcome->Err_0.refuses_with(
            "Too many login requests"@,
            429,
        ),
        outcome is Err && scope == LimitScope::Admin ==> outcome->Err_0.refuses_with(
            "Too many admin requests"@,
            429,
        ),
        verdict is None ==> exists|now: nat| #[trigger]
            checked_at(
                scope.period(config),
                scope.spec_burst(config) as nat,
                before.arrivals(scope),
                id,
                now,
                outcome is Ok,
                after.arrivals(scope),
            ),
        verdict is None ==> forall|other: LimitScope|
            other != scope ==> #[trigger] after.arrivals(other) == before.arrivals(other),
{
    let now = choose|now: nat| #[trigger]
        limited_at(config, scope, verdict, id, now, before, after, outcome);
    assert(limited_at(config, scope, verdict, id, now, before, after, outcome));
}

}
