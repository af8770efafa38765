//! The lease by which one replica at a time is the leader that runs scheduled
//! jobs.

use crate::datetime::{latest_date_time, utc_now, CivilDateTime};
use vstd::prelude::*;

verus! {

/// Fixed key of the singleton scheduler-leadership row (seeded by migration).
pub const SCHEDULER_LEASE_ID: &'static str = "scheduler";

/// A row of the table of leases.
#[derive(Debug)]
pub struct LeaseRow {
    pub id: String,
    pub holder: String,
    pub expires_at: CivilDateTime,
}

/// What a [`LeaseRow`] stands for.
pub struct LeaseView {
    pub id: Seq<char>,
    pub holder: Seq<char>,
    pub expires_at: CivilDateTime,
}

impl View for LeaseRow {
    type V = LeaseView;

    open spec fn view(&self) -> LeaseView {
        LeaseView { id: self.id@, holder: self.holder@, expires_at: self.expires_at }
    }
}

impl LeaseView {
    /// Whether a replica may take or renew the lease at a given time: it is free
    /// to the one that holds it, and to everybody once it has expired.
    pub open spec fn open_to(self, holder: Seq<char>, now: CivilDateTime) -> bool {
        self.holder == holder || self.expires_at.precedes(now)
    }

    /// Whether a replica holds the lease at a given time.
    pub open spec fn held_by(self, holder: Seq<char>, now: CivilDateTime) -> bool {
        self.holder == holder && !self.expires_at.precedes(now)
    }
}

/// An atomic update of the scheduler's row, which takes effect only where the row
/// is open to the holder.
#[derive(Debug)]
pub struct LeaseUpdate {
    pub id: String,
    pub holder: String,
    pub now: CivilDateTime,
    pub expires_at: CivilDateTime,
}

/// What a [`LeaseUpdate`] stands for.
pub struct LeaseUpdateView {
    pub id: Seq<char>,
    pub holder: Seq<char>,
    pub now: CivilDateTime,
    pub expires_at: CivilDateTime,
}

impl View for LeaseUpdate {
    type V = LeaseUpdateView;

    open spec fn view(&self) -> LeaseUpdateView {
        LeaseUpdateView {
            id: self.id@,
            holder: self.holder@,
            now: self.now,
            expires_at: self.expires_at,
        }
    }
}

impl LeaseUpdateView {
    /// Whether the update changes a row.
    pub open spec fn applies_to(self, row: LeaseView) -> bool {
        row.id == self.id && row.open_to(self.holder, self.now)
    }

    /// A row after the update.
    pub open spec fn updated(self, row: LeaseView) -> LeaseView {
        if self.applies_to(row) {
            LeaseView { id: row.id, holder: self.holder, expires_at: self.expires_at }
        } else {
            row
        }
    }

    /// A table after the update.
    pub open spec fn updated_table(self, rows: Seq<LeaseView>) -> Seq<LeaseView> {
        rows.map_values(|row: LeaseView| self.updated(row))
    }

    /// How many rows of a table the update changes.
    pub open spec fn rows_affected(self, rows: Seq<LeaseView>) -> nat
        decreases rows.len(),
    {
        if rows.len() == 0 {
            0
        } else {
            self.rows_affected(rows.drop_last()) + if self.applies_to(rows.last()) {
                1nat
            } else {
                0nat
            }
        }
    }
}

/// The rows of a table.
pub open spec fn lease_views(rows: Seq<LeaseRow>) -> Seq<LeaseView> {
    rows.map_values(|row: LeaseRow| row@)
}

/// Whether every row of a table has a date of the calendar.
pub open spec fn dates_valid(rows: Seq<LeaseRow>) -> bool {
    forall|i: int| 0 <= i < rows.len() ==> (#[trigger] rows[i]).expires_at.valid()
}

impl LeaseUpdate {
    /// Carries the update out on rows in memory, and says how many it changed.
    pub fn apply(&self, rows: &mut Vec<LeaseRow>) -> (affected: usize)
        requires
            self.now.valid(),
            self.expires_at.valid(),
            dates_valid(old(rows)@),
        ensures
            lease_views(final(rows)@) == self@.updated_table(lease_views(old(rows)@)),
            affected == self@.rows_affected(lease_views(old(rows)@)),
            dates_valid(final(rows)@),
    {
        let ghost before = lease_views(rows@);
        let mut affected: usize = 0;
        let mut i: usize = 0;
        assert(before.take(0) =~= Seq::empty());
        while i < rows.len()
            invariant
                i <= rows@.len(),
                rows@.len() == before.len(),
                self.now.valid(),
                self.expires_at.valid(),
                dates_valid(rows@),
                affected <= i,
                affected == self@.rows_affected(before.take(i as int)),
                forall|j: int| 0 <= j < i ==> (#[trigger] rows@[j])@ == self@.updated(before[j]),
                forall|j: int| i <= j < rows@.len() ==> (#[trigger] rows@[j])@ == before[j],
            decreases rows.len() - i,
        {
            proof {
                assert(before.take(i + 1).drop_last() =~= before.take(i as int));
                assert(before.take(i + 1).last() == rows@[i as int]@);
            }
            let open = rows[i].holder == self.holder || rows[i].expires_at.is_before(&self.now);
            if open && rows[i].id == self.id {
                let row = LeaseRow {
                    id: rows[i].id.clone(),
                    holder: self.holder.clone(),
                    expires_at: self.expires_at,
                };
                rows.set(i, row);
                affected += 1;
            }
            i += 1;
        }
        proof {
            assert(before.take(i as int) =~= before);
            assert(lease_views(rows@) =~= self@.updated_table(before));
        }
        affected
    }
}

/// The milliseconds for which a lease is taken: those that were asked for, as far
/// as they fit into 64 bits with a sign.
pub open spec fn lease_milliseconds(ttl_ms: u64) -> int {
    if ttl_ms > i64::MAX {
        i64::MAX as int
    } else {
        ttl_ms as int
    }
}

/// The scheduler lease.
pub struct JobLock;

impl JobLock {
    /// Try to acquire or renew the scheduler lease now. The caller carries the
    /// update out and hands the outcome to [`JobLock::acquired`]. There is none
    /// where the lease would end beyond the calendar.
    pub fn try_acquire(holder: &str, ttl_ms: u64) -> (update: Option<LeaseUpdate>)
        ensures
            exists|now: CivilDateTime|
                #[trigger] now.regular() && now.unix_seconds() >= 0 && is_lease_update(
                    update,
                    holder@,
                    now,
                    ttl_ms,
                ),
    {
        let now = utc_now();
        JobLock::lease_update(holder, now, ttl_ms)
    }

    /// Try to acquire or renew the scheduler lease at a given time.
    pub fn lease_update(holder: &str, now: CivilDateTime, ttl_ms: u64) -> (update: Option<
        LeaseUpdate,
    >)
        requires
            now.regular(),
        ensures
            is_lease_update(update, holder@, now, ttl_ms),
            ttl_ms <= i64::MAX ==> (update is Some <==> now.unix_nanos() + ttl_ms * 1_000_000
                <= latest_date_time().unix_nanos()),
            ttl_ms <= i64::MAX && update is Some ==> update->0.expires_at.unix_nanos()
                - now.unix_nanos() == ttl_ms * 1_000_000,
    {
        let milliseconds: i64 = if ttl_ms > i64::MAX as u64 {
            i64::MAX
        } else {
            ttl_ms as i64
        };
        match now.plus_milliseconds(milliseconds) {
            Some(expires_at) => Some(
                LeaseUpdate {
                    id: SCHEDULER_LEASE_ID.to_owned(),
                    holder: holder.to_owned(),
                    now,
                    expires_at,
                },
            ),
            None => None,
        }
    }

    /// Whether this replica holds the lease now, given how many rows the update
    /// changed. A replica whose update failed does not lead.
    pub fn acquired<E>(outcome: Result<usize, E>) -> (leader: bool)
        ensures
            leader == (outcome is Ok && outcome->Ok_0 == 1),
    {
        match outcome {
            Ok(rows) => rows == 1,
            Err(_) => false,
        }
    }
}

/// Whether an update is the one that takes the scheduler's lease at a given time
/// for a given number of milliseconds, or is missing because that would end beyond
/// the calendar.
pub open spec fn is_lease_update(
    update: Option<LeaseUpdate>,
    holder: Seq<char>,
    now: CivilDateTime,
    ttl_ms: u64,
) -> bool {
    let end = now.unix_nanos() + lease_milliseconds(ttl_ms) * 1_000_000;
    &&& update is Some <==> end <= latest_date_time().unix_nanos()
    &&& update matches Some(update) ==> {
        &&& update.id@ == SCHEDULER_LEASE_ID@
        &&& update.holder@ == holder
        &&& update.now == now
        &&& update.expires_at.regular()
        &&& update.expires_at.unix_nanos() == end
    }
}

/// Whether a table is as the migration seeds it: it has the row of the scheduler
/// and no other.
pub open spec fn seeded(rows: Seq<LeaseView>) -> bool {
    rows.len() == 1 && rows[0].id == SCHEDULER_LEASE_ID@
}

/// Whether this is an update of the scheduler's row.
pub open spec fn of_scheduler(update: LeaseUpdateView) -> bool {
    update.id == SCHEDULER_LEASE_ID@
}

proof fn lemma_one_row(update: LeaseUpdateView, rows: Seq<LeaseView>)
    requires
        rows.len() == 1,
    ensures
        update.rows_affected(rows) == if update.applies_to(rows[0]) {
            1nat
        } else {
            0nat
        },
        update.updated_table(rows) == seq![update.updated(rows[0])],
{
    reveal_with_fuel(LeaseUpdateView::rows_affected, 2);
    assert(rows.drop_last() =~= Seq::empty());
    assert(update.updated_table(rows) =~= seq![update.updated(rows[0])]);
}

/// While a replica's lease lasts no other replica gets it, and trying changes
/// nothing.
pub proof fn law_one_leader(
    rows: Seq<LeaseView>,
    winner: LeaseUpdateView,
    rival: LeaseUpdateView,
)
    requires
        seeded(rows),
        of_scheduler(winner),
        of_scheduler(rival),
        winner.rows_affected(rows) == 1,
        winner.holder != rival.holder,
        !winner.expires_at.precedes(rival.now),
    ensures
        rival.rows_affected(winner.updated_table(rows)) == 0,
        rival.updated_table(winner.updated_table(rows)) == winner.updated_table(rows),
{
    lemma_one_row(winner, rows);
    let after = winner.updated_table(rows);
    lemma_one_row(rival, after);
    assert(rival.updated_table(after) =~= after);
}

/// The replica that holds the lease can always renew it, and holds it until the
/// new end.
pub proof fn law_holder_renews(rows: Seq<LeaseView>, renewal: LeaseUpdateView, later: CivilDateTime)
    requires
        seeded(rows),
        of_scheduler(renewal),
        rows[0].holder == renewal.holder,
        !renewal.expires_at.precedes(later),
    ensures
        renewal.rows_affected(rows) == 1,
        seeded(renewal.updated_table(rows)),
        renewal.updated_table(rows)[0].held_by(renewal.holder, later),
{
    lemma_one_row(renewal, rows);
}

/// Once a lease has expired any replica can take it over.
pub proof fn law_expired_lease_is_taken_over(rows: Seq<LeaseView>, update: LeaseUpdateView)
    requires
        seeded(rows),
        of_scheduler(update),
        rows[0].expires_at.precedes(update.now),
    ensures
        update.rows_affected(rows) == 1,
        seeded(update.updated_table(rows)),
        update.updated_table(rows)[0].holder == update.holder,
        update.updated_table(rows)[0].expires_at == update.expires_at,
{
    lemma_one_row(update, rows);
}

/// A replica is told that it leads exactly when the lease is in its name
/// afterwards.
pub proof fn law_told_to_lead_means_holding(rows: Seq<LeaseView>, update: LeaseUpdateView)
    requires
        seeded(rows),
        of_scheduler(update),
        !update.expires_at.precedes(update.now),
    ensures
        update.rows_affected(rows) == 1 <==> update.updated_table(rows)[0].held_by(
            update.holder,
            update.now,
        ),
{
    lemma_one_row(update, rows);
}

/// A lease lasts for the milliseconds that it was taken for, and no longer.
pub proof fn law_lease_lasts_as_asked(
    update: LeaseUpdate,
    holder: Seq<char>,
    now: CivilDateTime,
    ttl_ms: u64,
    later: CivilDateTime,
)
    requires
        is_lease_update(Some(update), holder, now, ttl_ms),
        later.regular(),
    ensures
        update@.expires_at.precedes(later) <==> later.unix_nanos() > now.unix_nanos()
            + lease_milliseconds(ttl_ms) * 1_000_000,
{
}

/// A table after some updates, one after the other.
pub open spec fn table_after(rows: Seq<LeaseView>, updates: Seq<LeaseUpdateView>) -> Seq<LeaseView>
    decreases updates.len(),
{
    if updates.len() == 0 {
        rows
    } else {
        updates.last().updated_table(table_after(rows, updates.drop_last()))
    }
}

/// Whether one of some updates, carried out one after the other, gets the lease.
pub open spec fn wins(rows: Seq<LeaseView>, updates: Seq<LeaseUpdateView>, k: int) -> bool {
    updates[k].rows_affected(table_after(rows, updates.take(k))) == 1
}

proof fn lemma_lease_stays(
    rows: Seq<LeaseView>,
    updates: Seq<LeaseUpdateView>,
    winner: int,
    n: int,
)
    requires
        seeded(rows),
        forall|k: int| 0 <= k < updates.len() ==> of_scheduler(#[trigger] updates[k]),
        0 <= winner < n <= updates.len(),
        wins(rows, updates, winner),
        forall|k: int| winner < k < n ==> !#[trigger] wins(rows, updates, k),
    ensures
        seeded(table_after(rows, updates.take(n))),
        table_after(rows, updates.take(n))[0].holder == updates[winner].holder,
        table_after(rows, updates.take(n))[0].expires_at == updates[winner].expires_at,
    decreases n,
{
    let last = n - 1;
    lemma_table_stays_seeded(rows, updates, last);
    let before = table_after(rows, updates.take(last));
    assert(updates.take(n).drop_last() =~= updates.take(last));
    assert(updates.take(n).last() == updates[last]);
    lemma_one_row(updates[last], before);
    if winner < last {
        lemma_lease_stays(rows, updates, winner, last);
        assert(!wins(rows, updates, last));
    }
}

proof fn lemma_table_stays_seeded(rows: Seq<LeaseView>, updates: Seq<LeaseUpdateView>, n: int)
    requires
        seeded(rows),
        0 <= n <= updates.len(),
    ensures
        seeded(table_after(rows, updates.take(n))),
    decreases n,
{
    if n > 0 {
        lemma_table_stays_seeded(rows, updates, n - 1);
        assert(updates.take(n).drop_last() =~= updates.take(n - 1));
        lemma_one_row(updates[n - 1], table_after(rows, updates.take(n - 1)));
    }
}

/// However many replicas try however often, a replica gets the lease from another
/// only after the other's last lease has expired.
pub proof fn law_leaders_never_overlap(
    rows: Seq<LeaseView>,
    updates: Seq<LeaseUpdateView>,
    leader: int,
    successor: int,
)
    requires
        seeded(rows),
        forall|k: int| 0 <= k < updates.len() ==> of_scheduler(#[trigger] updates[k]),
        0 <= leader < successor < updates.len(),
        wins(rows, updates, leader),
        wins(rows, updates, successor),
        forall|k: int| leader < k < successor ==> !#[trigger] wins(rows, updates, k),
        updates[leader].holder != updates[successor].holder,
    ensures
        updates[leader].expires_at.precedes(updates[successor].now),
{
    lemma_lease_stays(rows, updates, leader, successor);
    lemma_one_row(updates[successor], table_after(rows, updates.take(successor)));
}

proof fn lemma_first_keeps_the_lease(
    rows: Seq<LeaseView>,
    updates: Seq<LeaseUpdateView>,
    n: int,
)
    requires
        seeded(rows),
        forall|k: int| 0 <= k < updates.len() ==> of_scheduler(#[trigger] updates[k]),
        rows[0].expires_at.precedes(updates[0].now),
        forall|k: int|
            0 < k < updates.len() ==> (#[trigger] updates[k]).holder != updates[0].holder
                && !updates[0].expires_at.precedes(updates[k].now),
        0 < n <= updates.len(),
    ensures
        wins(rows, updates, 0),
        forall|k: int| 0 < k < n ==> !#[trigger] wins(rows, updates, k),
    decreases n,
{
    if n == 1 {
        assert(updates.take(0) =~= Seq::empty());
        assert(of_scheduler(updates[0]));
        lemma_one_row(updates[0], rows);
    } else {
        let last = n - 1;
        lemma_first_keeps_the_lease(rows, updates, last);
        lemma_lease_stays(rows, updates, 0, last);
        lemma_one_row(updates[last], table_after(rows, updates.take(last)));
        assert(updates[last].holder != updates[0].holder);
        assert(!wins(rows, updates, last));
    }
}

/// Of any number of replicas that try for the same expired lease while the first
/// winner's lease lasts, exactly the first whose update takes effect gets it, and
/// holds it afterwards.
pub proof fn law_exactly_one_wins(rows: Seq<LeaseView>, updates: Seq<LeaseUpdateView>)
    requires
        seeded(rows),
        updates.len() > 0,
        forall|k: int| 0 <= k < updates.len() ==> of_scheduler(#[trigger] updates[k]),
        rows[0].expires_at.precedes(updates[0].now),
        forall|k: int|
            0 < k < updates.len() ==> (#[trigger] updates[k]).holder != updates[0].holder
                && !updates[0].expires_at.precedes(updates[k].now),
    ensures
        wins(rows, updates, 0),
        forall|k: int| 0 < k < updates.len() ==> !#[trigger] wins(rows, updates, k),
        seeded(table_after(rows, updates)),
        table_after(rows, updates)[0].holder == updates[0].holder,
        table_after(rows, updates)[0].expires_at == updates[0].expires_at,
{
    let n = updates.len() as int;
    lemma_first_keeps_the_lease(rows, updates, n);
    lemma_lease_stays(rows, updates, 0, n);
    assert(updates.take(n) =~= updates);
}

/// The lease that is asked for is the scheduler's, in the name of the one that asks,
/// and ends exactly the asked number of milliseconds after it was taken; it is to be
/// had whenever that end lies within the calendar. More milliseconds than fit into 64
/// bits with a sign count as the most that do.
pub proof fn law_lease_ends_when_asked(
    update: Option<LeaseUpdate>,
    holder: Seq<char>,
    now: CivilDateTime,
    ttl_ms: u64,
)
    requires
        is_lease_update(update, holder, now, ttl_ms),
    ensures
        ttl_ms <= i64::MAX ==> (update is Some <==> now.unix_nanos() + ttl_ms * 1_000_000
            <= latest_date_time().unix_nanos()),
        ttl_ms > i64::MAX ==> (update is Some <==> now.unix_nanos() + i64::MAX * 1_000_000
            <= latest_date_time().unix_nanos()),
        update matches Some(taken) ==> {
            &&& taken.id@ == "scheduler"@
            &&& taken.holder@ == holder
            &&& taken.now == now
            &&& taken.expires_at.regular()
            &&& ttl_ms <= i64::MAX ==> taken.expires_at.unix_nanos() - now.unix_nanos() == ttl_ms
                * 1_000_000
            &&& ttl_ms > i64::MAX ==> taken.expires_at.unix_nanos() - now.unix_nanos() == i64::MAX
                * 1_000_000
        },
{
}

/// A longer lease never ends before a shorter one that is taken at the same time, and
/// one that is a millisecond longer ends a millisecond later.
pub proof fn law_longer_lease_ends_later(
    shorter: LeaseUpdate,
    longer: LeaseUpdate,
    holder: Seq<char>,
    now: CivilDateTime,
    ttl_ms: u64,
    more_ms: u64,
)
    requires
        ttl_ms <= more_ms <= i64::MAX,
        is_lease_update(Some(shorter), holder, now, ttl_ms),
        is_lease_update(Some(longer), holder, now, more_ms),
    ensures
        longer.expires_at.unix_nanos() - shorter.expires_at.unix_nanos() == (more_ms - ttl_ms)
            * 1_000_000,
        shorter.expires_at.unix_nanos() >= now.unix_nanos(),
{
}

/// An update changes a row exactly where the row is the one it is for and is held by
/// the one that asks or has expired; it then puts the asker's name and the new end
/// into the row, and it touches nothing else.
pub proof fn law_update_changes_what_is_open(update: LeaseUpdateView, rows: Seq<LeaseView>, i: int)
    requires
        0 <= i < rows.len(),
    ensures
        update.updated_table(rows).len() == rows.len(),
        update.updated_table(rows)[i].id == rows[i].id,
        rows[i].id == update.id && (rows[i].holder == update.holder
            || rows[i].expires_at.unix_seconds() < update.now.unix_seconds() || (
        rows[i].expires_at.unix_seconds() == update.now.unix_seconds() && rows[i].expires_at.nano
            < update.now.nano)) ==> update.updated_table(rows)[i].holder == update.holder
            && update.updated_table(rows)[i].expires_at == update.expires_at,
        rows[i].id != update.id ==> update.updated_table(rows)[i] == rows[i],
        rows[i].holder != update.holder && rows[i].expires_at.unix_seconds()
            > update.now.unix_seconds() ==> update.updated_table(rows)[i] == rows[i],
        rows[i].holder != update.holder && rows[i].expires_at.unix_seconds()
            == update.now.unix_seconds() && rows[i].expires_at.nano >= update.now.nano
            ==> update.updated_table(rows)[i] == rows[i],
{
}

/// Every row that an update is for, and that is held by the one that asks or has
/// expired, counts as one row changed, and no other row counts.
pub proof fn law_rows_are_counted(update: LeaseUpdateView, rows: Seq<LeaseView>, row: LeaseView)
    ensures
        update.rows_affected(Seq::empty()) == 0,
        row.id == update.id && (row.holder == update.holder || row.expires_at.precedes(update.now))
            ==> update.rows_affected(rows.push(row)) == update.rows_affected(rows) + 1,
        row.id != update.id || (row.holder != update.holder && !row.expires_at.precedes(update.now))
            ==> update.rows_affected(rows.push(row)) == update.rows_affected(rows),
{
    assert(rows.push(row).drop_last() =~= rows);
}

/// A table and an update stand for exactly the rows, names and dates that they hold.
pub proof fn law_lease_rows_keep_everything(rows: Seq<LeaseRow>, update: LeaseUpdate, i: int)
    ensures
        lease_views(rows).len() == rows.len(),
        0 <= i < rows.len() ==> {
            &&& lease_views(rows)[i].id == rows[i].id@
            &&& lease_views(rows)[i].holder == rows[i].holder@
            &&& lease_views(rows)[i].expires_at == rows[i].expires_at
        },
        update@.id == update.id@,
        update@.holder == update.holder@,
        update@.now == update.now,
        update@.expires_at == update.expires_at,
{
}

}
