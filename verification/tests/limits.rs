use vaultsync::config::Config;
use vaultsync::error::Error;
use vaultsync::ratelimit::{
    bucket_request, check_limit_admin, check_limit_login, check_limit_login_account, check_redis,
    limit_outcome, normalized_username, LimitScope, LocalLimits,
};
use vaultsync::text::decimal_text;
use vaultsync::token_bucket::{take, Bucket};

fn config() -> Config {
    Config {
        enable_websocket: true,
        push_enabled: false,
        redis_websocket_enabled: false,
        redis_websocket_fallback_memory: false,
        redis_url: None,
        redis_channel_prefix: "vault".to_owned(),
        login_ratelimit_seconds: 3600,
        login_ratelimit_max_burst: 3,
        login_account_ratelimit_seconds: 7200,
        login_account_ratelimit_max_burst: 2,
        admin_ratelimit_seconds: 1800,
        admin_ratelimit_max_burst: 1,
    }
}

fn refused(outcome: Result<(), Error>, text: &str) -> bool {
    matches!(outcome, Err(Error::Status { message, code: 429 }) if message == text)
}

#[test]
fn buckets_are_named_by_limit_and_client() {
    let login = bucket_request(&config(), LimitScope::Login, "10.0.0.1");
    assert_eq!(login.key, "vault:rl:login:10.0.0.1");
    assert_eq!((login.capacity, login.refill_seconds), (3, 3600));
    let account = bucket_request(&config(), LimitScope::LoginAccount, "abc");
    assert_eq!(account.key, "vault:rl:login_acct:abc");
    assert_eq!((account.capacity, account.refill_seconds), (2, 7200));
    let admin = bucket_request(&config(), LimitScope::Admin, "10.0.0.1");
    assert_eq!(admin.key, "vault:rl:admin:10.0.0.1");
    assert_eq!((admin.capacity, admin.refill_seconds), (1, 1800));
}

#[test]
fn reply_of_redis_is_a_verdict() {
    assert_eq!(check_redis::<()>(Some(Ok(1))), Some(true));
    assert_eq!(check_redis::<()>(Some(Ok(0))), Some(false));
    assert_eq!(check_redis::<()>(Some(Ok(2))), Some(false));
    assert_eq!(check_redis(Some(Err("down"))), None);
    assert_eq!(check_redis::<()>(None), None);
}

#[test]
fn verdict_of_redis_decides_and_counts_nothing_here() {
    let mut limits = LocalLimits::new();
    let ip = "10.0.0.1".to_owned();
    for _ in 0..10 {
        assert!(check_limit_login(&mut limits, &config(), Some(true), &ip).is_ok());
    }
    assert!(refused(check_limit_login(&mut limits, &config(), Some(false), &ip), "Too many login requests"));
    for _ in 0..3 {
        assert!(check_limit_login(&mut limits, &config(), None, &ip).is_ok());
    }
}

#[test]
fn own_limiter_grants_the_burst() {
    let mut limits = LocalLimits::new();
    let ip = "10.0.0.1".to_owned();
    let other = "10.0.0.2".to_owned();
    for _ in 0..3 {
        assert!(check_limit_login(&mut limits, &config(), None, &ip).is_ok());
    }
    assert!(refused(check_limit_login(&mut limits, &config(), None, &ip), "Too many login requests"));
    assert!(check_limit_login(&mut limits, &config(), None, &other).is_ok());
}

#[test]
fn limits_are_independent() {
    let mut limits = LocalLimits::new();
    let id = "x".to_owned();
    assert!(check_limit_admin(&mut limits, &config(), None, &id).is_ok());
    assert!(refused(check_limit_admin(&mut limits, &config(), None, &id), "Too many admin requests"));
    assert!(check_limit_login_account(&mut limits, &config(), None, &id).is_ok());
    assert!(check_limit_login_account(&mut limits, &config(), None, &id).is_ok());
    assert!(refused(
        check_limit_login_account(&mut limits, &config(), None, &id),
        "Too many login requests"
    ));
    assert!(check_limit_login(&mut limits, &config(), None, &id).is_ok());
}

#[test]
fn admin_limit_is_its_own() {
    let ip = "10.0.0.1".to_owned();
    let mut limits = LocalLimits::new();
    for _ in 0..20 {
        let _ = check_limit_login(&mut limits, &config(), None, &ip);
        let _ = check_limit_login_account(&mut limits, &config(), None, &ip);
    }
    assert!(check_limit_admin(&mut limits, &config(), None, &ip).is_ok());
    for _ in 0..20 {
        let outcome = check_limit_admin(&mut limits, &config(), None, &ip);
        assert!(refused(outcome, "Too many admin requests"));
    }
    let other = "10.0.0.2".to_owned();
    assert!(check_limit_login(&mut limits, &config(), None, &other).is_ok());
}

#[test]
fn spellings_of_a_username_share_a_limit() {
    let mut limits = LocalLimits::new();
    let spellings = [" Bob@X.org ", "bob@x.org", "BOB@X.ORG\t"];
    let ids: Vec<String> = spellings.iter().map(|name| normalized_username(name)).collect();
    assert_eq!(ids[0], ids[1]);
    assert_eq!(ids[1], ids[2]);
    let outcomes: Vec<bool> = ids
        .iter()
        .map(|id| check_limit_login_account(&mut limits, &config(), None, id).is_ok())
        .collect();
    assert_eq!(outcomes, vec![true, true, false]);
    let keys: Vec<String> =
        ids.iter().map(|id| bucket_request(&config(), LimitScope::LoginAccount, id).key).collect();
    assert_eq!(keys[0], keys[2]);
}

#[test]
fn own_limiter_refills_with_its_period() {
    let mut settings = config();
    settings.admin_ratelimit_seconds = 1;
    settings.admin_ratelimit_max_burst = 1;
    let mut limits = LocalLimits::new();
    let ip = "10.0.0.1".to_owned();
    assert!(check_limit_admin(&mut limits, &settings, None, &ip).is_ok());
    assert!(check_limit_admin(&mut limits, &settings, None, &ip).is_err());
    let start = std::time::Instant::now();
    while start.elapsed() < std::time::Duration::from_millis(1_200) {}
    assert!(check_limit_admin(&mut limits, &settings, None, &ip).is_ok());
    assert!(check_limit_admin(&mut limits, &settings, None, &ip).is_err());
}

#[test]
fn outcome_follows_the_decision() {
    for scope in [LimitScope::Login, LimitScope::LoginAccount, LimitScope::Admin] {
        assert!(limit_outcome(scope, true).is_ok());
    }
    assert!(refused(limit_outcome(LimitScope::Admin, false), "Too many admin requests"));
    assert!(refused(limit_outcome(LimitScope::LoginAccount, false), "Too many login requests"));
}

#[test]
fn usernames_are_normalized() {
    assert_eq!(normalized_username("  Alice@Example.COM\t\n"), "alice@example.com");
    assert_eq!(normalized_username("bob"), "bob");
    assert_eq!(normalized_username(" \u{a0} "), "");
    assert_eq!(normalized_username("\u{c9}VA"), "\u{e9}va");
    assert_eq!(normalized_username("a B"), "a b");
}

#[test]
fn numbers_are_printed_in_decimal() {
    assert_eq!(decimal_text(0), "0");
    assert_eq!(decimal_text(7), "7");
    assert_eq!(decimal_text(4294967295), "4294967295");
    assert_eq!(decimal_text(u64::MAX), "18446744073709551615");
}

#[test]
fn new_bucket_grants_its_capacity_at_once() {
    let mut bucket: Option<Bucket> = None;
    for _ in 0..5 {
        let taken = take(bucket, 5, 60, 1_000);
        assert!(taken.allowed);
        assert_eq!(taken.expires_in, 300_000);
        bucket = Some(taken.bucket);
    }
    let taken = take(bucket, 5, 60, 1_000);
    assert!(!taken.allowed);
    assert_eq!(taken.bucket, Bucket { credits: 0, counted_at: 1_000 });
}

#[test]
fn bucket_gains_a_token_in_time() {
    let empty = Bucket { credits: 0, counted_at: 1_000 };
    assert!(!take(Some(empty), 5, 60, 60_999).allowed);
    let taken = take(Some(empty), 5, 60, 61_000);
    assert!(taken.allowed);
    assert_eq!(taken.bucket, Bucket { credits: 0, counted_at: 61_000 });
    let half = take(Some(empty), 5, 60, 31_000);
    assert!(!half.allowed);
    assert_eq!(half.bucket, Bucket { credits: 30_000, counted_at: 31_000 });
    assert!(take(Some(half.bucket), 5, 60, 61_000).allowed);
}

#[test]
fn bucket_never_holds_more_than_its_capacity() {
    let empty = Bucket { credits: 0, counted_at: 0 };
    let taken = take(Some(empty), 2, 1, u64::MAX);
    assert_eq!(taken.bucket, Bucket { credits: 1_000, counted_at: u64::MAX });
    let largest = take(None, u32::MAX, u64::MAX, 0);
    assert!(largest.allowed);
}

#[test]
fn time_that_goes_backwards_counts_for_nothing() {
    let bucket = Bucket { credits: 500, counted_at: 10_000 };
    let taken = take(Some(bucket), 2, 1, 3_000);
    assert!(!taken.allowed);
    assert_eq!(taken.bucket, bucket);
}

#[test]
fn grants_keep_to_the_rate() {
    let mut bucket: Option<Bucket> = None;
    let mut times: Vec<u64> = Vec::new();
    let mut now: u64 = 5_000;
    for i in 0..500 {
        now += i * 37 % 900;
        let taken = take(bucket, 3, 2, now);
        if taken.allowed {
            times.push(now);
        }
        bucket = Some(taken.bucket);
    }
    assert!(times.len() > 50);
    for first in 0..times.len() {
        for last in first..times.len() {
            let window = times[last] - times[first];
            assert!((last - first + 1) as u64 <= 3 + window / 2_000);
        }
    }
}

#[test]
fn bucket_without_waiting_time_is_full_again_at_once() {
    let first = take(None, 1, 0, 5);
    assert!(first.allowed);
    assert_eq!(first.expires_in, 0);
    assert!(!take(Some(first.bucket), 1, 0, 5).allowed);
    assert!(take(Some(first.bucket), 1, 0, 6).allowed);
    assert!(!take(None, 0, 60, 5).allowed);
}

#[test]
fn forgotten_bucket_was_full() {
    let bucket = Bucket { credits: 0, counted_at: 0 };
    assert_eq!(take(Some(bucket), 4, 3, 12_000).bucket, take(None, 4, 3, 12_000).bucket);
    assert_ne!(take(Some(bucket), 4, 3, 11_999).bucket, take(None, 4, 3, 11_999).bucket);
}
