//! The login guard: failed logins per account, counted over a trailing
//! window. An account is locked while the count reaches the limit; it opens
//! again when the window has moved past the failures, or at once after a
//! successful login.

use vstd::prelude::*;
use crate::config::LoginLimitConfig;

verus! {

/// One wrong password: for which account, and when.
#[derive(Debug, Clone, Copy, PartialEq, Eq, Structural)]
pub struct FailedLogin {
    pub account_id: u128,
    pub attempt_time: i64,
}

/// Whether `record` is a failure of `account_id` that still counts at `now`.
pub open spec fn is_recent(
    record: FailedLogin,
    account_id: u128,
    now: i64,
    limits: LoginLimitConfig,
) -> bool {
    record.account_id == account_id && limits.counts(record.attempt_time, now)
}

/// The number of failures of `account_id` in `log` that still count at `now`.
pub open spec fn recent_failures(
    log: Seq<FailedLogin>,
    account_id: u128,
    now: i64,
    limits: LoginLimitConfig,
) -> nat
    decreases log.len(),
{
    if log.len() == 0 {
        0
    } else {
        recent_failures(log.drop_last(), account_id, now, limits) + if is_recent(
            log.last(),
            account_id,
            now,
            limits,
        ) {
            1nat
        } else {
            0nat
        }
    }
}

/// `log` without the failures of `account_id`.
pub open spec fn without_account(log: Seq<FailedLogin>, account_id: u128) -> Seq<FailedLogin> {
    log.filter(|r: FailedLogin| r.account_id != account_id)
}

/// The failures of one account at the given times.
pub open spec fn failures_at(account_id: u128, times: Seq<i64>) -> Seq<FailedLogin> {
    times.map_values(|t: i64| FailedLogin { account_id, attempt_time: t })
}

/// Whether the account is locked at `now`.
pub open spec fn locked(
    log: Seq<FailedLogin>,
    account_id: u128,
    now: i64,
    limits: LoginLimitConfig,
) -> bool {
    limits.locks(recent_failures(log, account_id, now, limits) as int)
}

/// A new failure adds one to the count of its account, if it lies in the
/// window, and nothing to any other count.
pub proof fn lemma_failure_is_counted(
    log: Seq<FailedLogin>,
    record: FailedLogin,
    account_id: u128,
    now: i64,
    limits: LoginLimitConfig,
)
    ensures
        recent_failures(log.push(record), account_id, now, limits) == recent_failures(
            log,
            account_id,
            now,
            limits,
        ) + if is_recent(record, account_id, now, limits) {
            1nat
        } else {
            0nat
        },
{
    assert(log.push(record).drop_last() =~= log);
}

/// The count over two logs in a row is the sum of the counts.
pub proof fn lemma_counts_add_up(
    first: Seq<FailedLogin>,
    second: Seq<FailedLogin>,
    account_id: u128,
    now: i64,
    limits: LoginLimitConfig,
)
    ensures
        recent_failures(first + second, account_id, now, limits) == recent_failures(
            first,
            account_id,
            now,
            limits,
        ) + recent_failures(second, account_id, now, limits),
    decreases second.len(),
{
    if second.len() == 0 {
        assert(first + second =~= first);
    } else {
        assert((first + second).drop_last() =~= first + second.drop_last());
        lemma_counts_add_up(first, second.drop_last(), account_id, now, limits);
    }
}

/// Failures of one account that all lie in the window are all counted.
pub proof fn lemma_all_recent_are_counted(
    account_id: u128,
    times: Seq<i64>,
    now: i64,
    limits: LoginLimitConfig,
)
    requires
        forall|i: int| 0 <= i < times.len() ==> limits.counts(#[trigger] times[i], now),
    ensures
        recent_failures(failures_at(account_id, times), account_id, now, limits) == times.len(),
    decreases times.len(),
{
    let log = failures_at(account_id, times);
    if times.len() > 0 {
        assert(log.drop_last() =~= failures_at(account_id, times.drop_last()));
        assert(limits.counts(times[times.len() - 1], now));
        lemma_all_recent_are_counted(account_id, times.drop_last(), now, limits);
    }
}

/// As many failures within the window as the limit lock the account,
/// whatever the log held before.
pub proof fn lemma_repeated_failures_lock(
    log: Seq<FailedLogin>,
    account_id: u128,
    times: Seq<i64>,
    now: i64,
    limits: LoginLimitConfig,
)
    requires
        times.len() >= limits.max_attempts,
        forall|i: int| 0 <= i < times.len() ==> limits.counts(#[trigger] times[i], now),
    ensures
        locked(log + failures_at(account_id, times), account_id, now, limits),
{
    lemma_counts_add_up(log, failures_at(account_id, times), account_id, now, limits);
    lemma_all_recent_are_counted(account_id, times, now, limits);
}

/// After a reset no failure of the account is left, so it is open wherever
/// the limit is positive.
pub proof fn lemma_reset_opens(
    log: Seq<FailedLogin>,
    account_id: u128,
    now: i64,
    limits: LoginLimitConfig,
)
    ensures
        recent_failures(without_account(log, account_id), account_id, now, limits) == 0,
        limits.max_attempts > 0 ==> !locked(
            without_account(log, account_id),
            account_id,
            now,
            limits,
        ),
{
    let keep = |r: FailedLogin| r.account_id != account_id;
    let kept = log.filter(keep);
    assert forall|i: int| 0 <= i < kept.len() implies (#[trigger] kept[i]).account_id
        != account_id by {
        log.lemma_filter_pred(keep, i);
    }
    lemma_no_failure_of_absent_account(kept, account_id, now, limits);
}

/// A log without failures of the account counts none for it.
pub proof fn lemma_no_failure_of_absent_account(
    log: Seq<FailedLogin>,
    account_id: u128,
    now: i64,
    limits: LoginLimitConfig,
)
    requires
        forall|i: int| 0 <= i < log.len() ==> (#[trigger] log[i]).account_id != account_id,
    ensures
        recent_failures(log, account_id, now, limits) == 0,
    decreases log.len(),
{
    if log.len() > 0 {
        assert(log.last() == log[log.len() - 1]);
        lemma_no_failure_of_absent_account(log.drop_last(), account_id, now, limits);
    }
}

/// Once the window has moved past every failure, none counts.
pub proof fn lemma_window_slides_past(
    log: Seq<FailedLogin>,
    account_id: u128,
    now: i64,
    limits: LoginLimitConfig,
)
    requires
        forall|i: int| 0 <= i < log.len() ==> !limits.counts((#[trigger] log[i]).attempt_time, now),
    ensures
        recent_failures(log, account_id, now, limits) == 0,
    decreases log.len(),
{
    if log.len() > 0 {
        assert(log.last() == log[log.len() - 1]);
        lemma_window_slides_past(log.drop_last(), account_id, now, limits);
    }
}

/// A guard that keeps its log in memory.
pub struct LoginGuard {
    records: Vec<FailedLogin>,
}

impl View for LoginGuard {
    type V = Seq<FailedLogin>;

    closed spec fn view(&self) -> Seq<FailedLogin> {
        self.records@
    }
}

impl LoginGuard {
    /// A guard with an empty log.
    pub fn new() -> (guard: Self)
        ensures
            guard@ == Seq::<FailedLogin>::empty(),
    {
        LoginGuard { records: Vec::new() }
    }

    /// Notes a wrong password for `account_id` at `now`.
    pub fn record_failure(&mut self, account_id: u128, now: i64)
        ensures
            final(self)@ == old(self)@.push(FailedLogin { account_id, attempt_time: now }),
    {
        self.records.push(FailedLogin { account_id, attempt_time: now });
    }

    /// The number of failures of `account_id` that count at `now`.
    pub fn count_recent(&self, account_id: u128, now: i64, limits: &LoginLimitConfig) -> (count:
        usize)
        ensures
            count == recent_failures(self@, account_id, now, *limits),
    {
        let n = self.records.len();
        let mut count: usize = 0;
        let mut i: usize = 0;
        while i < n
            invariant
                i <= n == self.records@.len(),
                count <= i,
                count == recent_failures(self.records@.take(i as int), account_id, now, *limits),
            decreases n - i,
        {
            let record = self.records[i];
            proof {
                assert(self.records@.take(i + 1) =~= self.records@.take(i as int).push(record));
                lemma_failure_is_counted(
                    self.records@.take(i as int),
                    record,
                    account_id,
                    now,
                    *limits,
                );
            }
            if record.account_id == account_id && limits.in_window(record.attempt_time, now) {
                count += 1;
            }
            i += 1;
        }
        assert(self.records@.take(n as int) =~= self.records@);
        count
    }

    /// Whether the failures of `account_id` that count at `now` reach the
    /// limit.
    pub fn is_locked(&self, account_id: u128, now: i64, limits: &LoginLimitConfig) -> (b: bool)
        ensures
            b == locked(self@, account_id, now, *limits),
    {
        let count = self.count_recent(account_id, now, limits);
        count as i128 >= limits.max_attempts as i128
    }

    /// Forgets the failures of `account_id`, after a correct password.
    pub fn reset(&mut self, account_id: u128)
        ensures
            final(self)@ == without_account(old(self)@, account_id),
    {
        let mut kept: Vec<FailedLogin> = Vec::new();
        let n = self.records.len();
        let mut i: usize = 0;
        let ghost keep = |r: FailedLogin| r.account_id != account_id;
        assert(self.records@.take(0).filter(keep) =~= Seq::<FailedLogin>::empty()) by {
            assert(self.records@.take(0) =~= Seq::<FailedLogin>::empty());
        }
        while i < n
            invariant
                i <= n == self.records@.len(),
                self.records@ == old(self).records@,
                keep == (|r: FailedLogin| r.account_id != account_id),
                kept@ == self.records@.take(i as int).filter(keep),
            decreases n - i,
        {
            let record = self.records[i];
            proof {
                assert(self.records@.take(i + 1) =~= self.records@.take(i as int).push(record));
                assert(self.records@.take(i + 1).drop_last() =~= self.records@.take(i as int));
                reveal(Seq::filter);
            }
            if record.account_id != account_id {
                kept.push(record);
            }
            i += 1;
        }
        assert(self.records@.take(n as int) =~= self.records@);
        self.records = kept;
    }
}

} // verus!
