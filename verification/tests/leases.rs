use vaultsync::datetime::CivilDateTime;
use vaultsync::job_lock::{JobLock, LeaseRow, LeaseUpdate, SCHEDULER_LEASE_ID};

fn at(hour: u32, minute: u32, second: u32) -> CivilDateTime {
    CivilDateTime { year: 2024, month: 12, day: 31, hour, minute, second, nano: 0 }
}

fn table(holder: &str, expires_at: CivilDateTime) -> Vec<LeaseRow> {
    vec![LeaseRow { id: "scheduler".to_owned(), holder: holder.to_owned(), expires_at }]
}

fn update(holder: &str, now: CivilDateTime, ttl_ms: u64) -> LeaseUpdate {
    JobLock::lease_update(holder, now, ttl_ms).unwrap()
}

#[test]
fn lease_ends_after_its_time() {
    let taken = update("a", at(23, 59, 50), 15_250);
    assert_eq!(taken.id, "scheduler");
    assert_eq!(taken.holder, "a");
    assert_eq!(taken.now, at(23, 59, 50));
    assert_eq!(
        taken.expires_at,
        CivilDateTime { year: 2025, month: 1, day: 1, hour: 0, minute: 0, second: 5, nano: 250_000_000 }
    );
    assert_eq!(SCHEDULER_LEASE_ID, "scheduler");
}

#[test]
fn lease_of_no_time_ends_now() {
    assert_eq!(update("a", at(1, 2, 3), 0).expires_at, at(1, 2, 3));
}

#[test]
fn lease_beyond_the_calendar_is_not_to_be_had() {
    assert!(JobLock::lease_update("a", at(0, 0, 0), u64::MAX).is_none());
    assert!(JobLock::lease_update("a", at(0, 0, 0), i64::MAX as u64).is_none());
    let eve = CivilDateTime { year: 262_142, ..at(23, 59, 59) };
    assert!(JobLock::lease_update("a", eve, 999).is_some());
    assert!(JobLock::lease_update("a", eve, 1_000).is_none());
}

#[test]
fn lease_is_asked_for_at_the_present_time() {
    let taken = JobLock::try_acquire("a", 90_000).unwrap();
    assert!(taken.now.year >= 2024);
    assert!(taken.now.is_before(&taken.expires_at));
    assert_eq!(taken.holder, "a");
}

#[test]
fn rival_waits_while_the_lease_lasts() {
    let mut rows = table("nobody", at(0, 0, 0));
    assert_eq!(update("a", at(1, 0, 0), 60_000).apply(&mut rows), 1);
    assert_eq!(rows[0].holder, "a");
    assert_eq!(rows[0].expires_at, at(1, 1, 0));
    assert_eq!(update("b", at(1, 0, 30), 60_000).apply(&mut rows), 0);
    assert_eq!(update("b", at(1, 1, 0), 60_000).apply(&mut rows), 0);
    assert_eq!(rows[0].holder, "a");
    assert_eq!(rows[0].expires_at, at(1, 1, 0));
}

#[test]
fn holder_renews_at_any_time() {
    let mut rows = table("a", at(1, 0, 0));
    assert_eq!(update("a", at(0, 59, 0), 120_000).apply(&mut rows), 1);
    assert_eq!(rows[0].expires_at, at(1, 1, 0));
    assert_eq!(update("a", at(5, 0, 0), 1_000).apply(&mut rows), 1);
    assert_eq!(rows[0].expires_at, at(5, 0, 1));
}

#[test]
fn expired_lease_is_taken_over_by_exactly_one() {
    let mut rows = table("a", at(1, 0, 0));
    let first = update("b", at(1, 0, 1), 60_000);
    assert_eq!(first.apply(&mut rows), 1);
    for rival in ["a", "c", "d", "e"] {
        assert_eq!(update(rival, at(1, 0, 1), 60_000).apply(&mut rows), 0);
    }
    assert_eq!(rows[0].holder, "b");
    assert_eq!(rows[0].expires_at, at(1, 1, 1));
}

#[test]
fn other_rows_are_left_alone() {
    let mut rows = table("a", at(1, 0, 0));
    rows.push(LeaseRow { id: "other".to_owned(), holder: "b".to_owned(), expires_at: at(0, 0, 0) });
    assert_eq!(update("b", at(2, 0, 0), 1_000).apply(&mut rows), 1);
    assert_eq!(rows[1].expires_at, at(0, 0, 0));
    assert_eq!(rows[1].id, "other");
    assert_eq!(update("b", at(2, 0, 0), 1_000).apply(&mut vec![]), 0);
}

#[test]
fn only_one_changed_row_means_leading() {
    assert!(JobLock::acquired::<()>(Ok(1)));
    assert!(!JobLock::acquired::<()>(Ok(0)));
    assert!(!JobLock::acquired::<()>(Ok(2)));
    assert!(!JobLock::acquired(Err("the database is down")));
}

#[test]
fn dates_are_compared_in_time() {
    assert!(at(1, 0, 0).is_before(&at(1, 0, 1)));
    assert!(!at(1, 0, 0).is_before(&at(1, 0, 0)));
    let old = CivilDateTime { year: 2023, ..at(23, 59, 59) };
    assert!(old.is_before(&at(0, 0, 0)));
    let nano = CivilDateTime { nano: 1, ..at(1, 0, 0) };
    assert!(at(1, 0, 0).is_before(&nano));
    let leap = CivilDateTime { nano: 1_500_000_000, ..at(23, 59, 59) };
    assert!(at(23, 59, 59).is_before(&leap));
}
