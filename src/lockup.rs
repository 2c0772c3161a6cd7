use vstd::prelude::*;

use crate::error::ErrorCode;

verus! {

/// Seconds in one day.
pub const SECS_PER_DAY: u64 = 86400;

/// Seconds in one month: a twelfth of a 365-day year.
pub const SECS_PER_MONTH: u64 = 2628000;

/// The kind of a lockup, which decides how its locked amount vests.
#[derive(Clone, Copy, Debug, PartialEq, Eq, Structural)]
pub enum LockupKind {
    /// Nothing is locked: the whole amount has vested at once.
    NoLockup,
    /// Linear vesting, one part per day.
    Daily,
    /// Linear vesting, one part per month.
    Monthly,
    /// Everything vests together at the end of the lockup.
    Cliff,
    /// Everything vests together at the end of the lockup.
    Constant,
}

impl LockupKind {
    pub open spec fn spec_period_secs(self) -> u64 {
        match self {
            LockupKind::NoLockup => 0,
            LockupKind::Daily => SECS_PER_DAY,
            LockupKind::Monthly => SECS_PER_MONTH,
            LockupKind::Cliff => SECS_PER_DAY,
            LockupKind::Constant => SECS_PER_DAY,
        }
    }

    /// Length of one vesting period; a lockup of `n` periods lasts
    /// `n * period_secs()` seconds.
    pub fn period_secs(&self) -> (r: u64)
        ensures
            r == self.spec_period_secs(),
    {
        match self {
            LockupKind::NoLockup => 0,
            LockupKind::Daily => SECS_PER_DAY,
            LockupKind::Monthly => SECS_PER_MONTH,
            LockupKind::Cliff => SECS_PER_DAY,
            LockupKind::Constant => SECS_PER_DAY,
        }
    }

    pub open spec fn spec_strictness(self) -> u8 {
        match self {
            LockupKind::NoLockup => 0,
            LockupKind::Daily => 1,
            LockupKind::Monthly => 1,
            LockupKind::Cliff => 2,
            LockupKind::Constant => 2,
        }
    }

    /// Orders kinds by how long they hold tokens back: no lockup, then
    /// the periodic kinds, then the all-at-the-end kinds.
    pub fn strictness(&self) -> (r: u8)
        ensures
            r == self.spec_strictness(),
    {
        match self {
            LockupKind::NoLockup => 0,
            LockupKind::Daily => 1,
            LockupKind::Monthly => 1,
            LockupKind::Cliff => 2,
            LockupKind::Constant => 2,
        }
    }

    /// Whether the locked amount vests period by period.
    pub open spec fn is_periodic(self) -> bool {
        self == LockupKind::Daily || self == LockupKind::Monthly
    }
}

/// A vesting schedule: the locked amount vests between `start_ts` and
/// `end_ts` in the way that `kind` says.
#[derive(Clone, Copy, Debug, PartialEq, Eq, Structural)]
pub struct Lockup {
    pub start_ts: i64,
    pub end_ts: i64,
    pub kind: LockupKind,
}

impl Lockup {
    /// A lockup never ends before it starts.
    pub open spec fn wf(self) -> bool {
        self.start_ts <= self.end_ts
    }

    pub open spec fn spec_seconds_left(self, now: i64) -> nat {
        if now >= self.end_ts {
            0
        } else {
            (self.end_ts - now) as nat
        }
    }

    /// Number of whole periods between start and end; zero for a kind
    /// without periods.
    pub open spec fn spec_periods_total(self) -> nat {
        if self.kind.spec_period_secs() == 0 || self.end_ts <= self.start_ts {
            0
        } else {
            ((self.end_ts - self.start_ts) / (self.kind.spec_period_secs() as int)) as nat
        }
    }

    /// Number of whole periods that have passed at `now`, at most
    /// `spec_periods_total()`.
    pub open spec fn spec_periods_elapsed(self, now: i64) -> nat {
        if self.kind.spec_period_secs() == 0 || now <= self.start_ts {
            0
        } else {
            let e = ((now - self.start_ts) / (self.kind.spec_period_secs() as int)) as nat;
            if e <= self.spec_periods_total() {
                e
            } else {
                self.spec_periods_total()
            }
        }
    }

    /// The default lockup: none, starting and ending at time zero.
    pub fn none() -> (r: Lockup)
        ensures
            r == (Lockup { start_ts: 0, end_ts: 0, kind: LockupKind::NoLockup }),
    {
        Lockup { start_ts: 0, end_ts: 0, kind: LockupKind::NoLockup }
    }

    /// A lockup of `kind` that starts at `start_ts` and lasts `periods`
    /// periods.
    pub fn new_from_periods(kind: LockupKind, start_ts: i64, periods: u32) -> (r: Result<
        Lockup,
        ErrorCode,
    >)
        ensures
            r is Ok <==> (kind == LockupKind::NoLockup || periods > 0) && start_ts + periods
                * kind.spec_period_secs() <= i64::MAX,
            r is Ok ==> r->Ok_0 == (Lockup {
                start_ts,
                end_ts: (start_ts + periods * kind.spec_period_secs()) as i64,
                kind,
            }),
            r is Ok ==> r->Ok_0.wf(),
            (r is Err && kind != LockupKind::NoLockup && periods == 0) ==> r->Err_0
                == ErrorCode::InvalidLockupPeriod,
            (r is Err && (kind == LockupKind::NoLockup || periods > 0)) ==> r->Err_0
                == ErrorCode::ArithmeticOverflow,
    {
        if kind != LockupKind::NoLockup && periods == 0 {
            return Err(ErrorCode::InvalidLockupPeriod);
        }
        let ps = kind.period_secs();
        assert(periods * ps <= 0xffff_ffff * 2628000) by (nonlinear_arith)
            requires
                periods <= 0xffff_ffff,
                ps <= 2628000,
        ;
        let duration: i64 = (periods as u64 * ps) as i64;
        match start_ts.checked_add(duration) {
            Some(end_ts) => Ok(Lockup { start_ts, end_ts, kind }),
            None => Err(ErrorCode::ArithmeticOverflow),
        }
    }

    /// Seconds until the lockup ends; zero once it has ended.
    pub fn seconds_left(&self, curr_ts: i64) -> (r: u64)
        ensures
            r == self.spec_seconds_left(curr_ts),
    {
        if curr_ts >= self.end_ts {
            0
        } else {
            (self.end_ts as i128 - curr_ts as i128) as u64
        }
    }

    /// Whether the lockup has ended at `curr_ts`.
    pub fn expired(&self, curr_ts: i64) -> (r: bool)
        ensures
            r == (self.spec_seconds_left(curr_ts) == 0),
    {
        self.seconds_left(curr_ts) == 0
    }

    /// Whole periods between start and end.
    pub fn periods_total(&self) -> (r: u64)
        ensures
            r == self.spec_periods_total(),
    {
        let ps = self.kind.period_secs();
        if ps == 0 || self.end_ts <= self.start_ts {
            0
        } else {
            let span: u64 = (self.end_ts as i128 - self.start_ts as i128) as u64;
            span / ps
        }
    }

    /// Whole periods passed at `curr_ts`, capped at the total.
    pub fn periods_elapsed(&self, curr_ts: i64) -> (r: u64)
        ensures
            r == self.spec_periods_elapsed(curr_ts),
            r <= self.spec_periods_total(),
    {
        let ps = self.kind.period_secs();
        if ps == 0 || curr_ts <= self.start_ts {
            0
        } else {
            let span: u64 = (curr_ts as i128 - self.start_ts as i128) as u64;
            let e = span / ps;
            let total = self.periods_total();
            if e <= total {
                e
            } else {
                total
            }
        }
    }
}

} // verus!
