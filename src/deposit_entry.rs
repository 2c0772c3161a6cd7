use vstd::prelude::*;

use crate::error::ErrorCode;
use crate::lockup::{Lockup, LockupKind};
use crate::voting_mint_config::{lemma_scaled_weight_monotone, VotingMintConfig};

verus! {

/// The extra weight of a lockup bonus of at most `max_weight` when
/// `secs_left` seconds of lockup remain: it grows linearly with the
/// remaining time up to the saturation time and stays full past it.
pub open spec fn locked_bonus(max_weight: nat, secs_left: nat, saturation_secs: u64) -> nat {
    if secs_left == 0 {
        0
    } else if saturation_secs == 0 || secs_left >= saturation_secs {
        max_weight
    } else {
        max_weight * secs_left / (saturation_secs as nat)
    }
}

pub proof fn lemma_locked_bonus_monotone(m1: nat, m2: nat, s1: nat, s2: nat, sat: u64)
    requires
        m1 <= m2,
        s1 <= s2,
    ensures
        locked_bonus(m1, s1, sat) <= locked_bonus(m2, s2, sat),
        locked_bonus(m2, s2, sat) <= m2,
{
    if s2 > 0 && sat > 0 && s2 < sat {
        assert(m2 * s2 / (sat as nat) <= m2) by (nonlinear_arith)
            requires
                s2 < sat,
                sat > 0,
        ;
        if s1 > 0 {
            assert(m1 * s1 / (sat as nat) <= m2 * s2 / (sat as nat)) by (nonlinear_arith)
                requires
                    m1 <= m2,
                    s1 <= s2,
                    sat > 0,
            ;
        }
    }
    if s1 > 0 && sat > 0 && s1 < sat && s2 >= sat {
        assert(m1 * s1 / (sat as nat) <= m1) by (nonlinear_arith)
            requires
                s1 < sat,
                sat > 0,
        ;
    }
}

/// One deposit slot of a voter: an amount of one voting mint, part of it
/// under a lockup.
#[derive(Clone, Copy, Debug, PartialEq, Eq, Structural)]
pub struct DepositEntry {
    /// The schedule under which `amount_initially_locked_native` vests.
    pub lockup: Lockup,
    /// Tokens held in the slot.
    pub amount_deposited_native: u64,
    /// Tokens that the lockup started from; what has not vested of them is
    /// locked.
    pub amount_initially_locked_native: u64,
    pub is_used: bool,
    /// Whether the clawback authority may take back the unvested tokens.
    pub allow_clawback: bool,
    /// Index of the voting mint in the registrar.
    pub voting_mint_config_idx: u8,
}

impl Default for DepositEntry {
    /// The unused slot.
    fn default() -> (r: DepositEntry)
        ensures
            r == DepositEntry::spec_unused(),
    {
        DepositEntry {
            lockup: Lockup::none(),
            amount_deposited_native: 0,
            amount_initially_locked_native: 0,
            is_used: false,
            allow_clawback: false,
            voting_mint_config_idx: 0,
        }
    }
}

impl DepositEntry {
    pub open spec fn spec_unused() -> DepositEntry {
        DepositEntry {
            lockup: Lockup { start_ts: 0, end_ts: 0, kind: LockupKind::NoLockup },
            amount_deposited_native: 0,
            amount_initially_locked_native: 0,
            is_used: false,
            allow_clawback: false,
            voting_mint_config_idx: 0,
        }
    }

    /// The lockup is well formed, and a slot not in use holds nothing.
    pub open spec fn wf(self) -> bool {
        &&& self.lockup.wf()
        &&& !self.is_used ==> self == DepositEntry::spec_unused()
    }

    /// Tokens of `amount_initially_locked_native` that have vested at `now`.
    pub open spec fn spec_vested(self, now: i64) -> nat {
        let a = self.amount_initially_locked_native as nat;
        let l = self.lockup;
        if l.spec_seconds_left(now) == 0 || l.kind == LockupKind::NoLockup {
            a
        } else if l.kind.is_periodic() {
            if l.spec_periods_total() == 0 {
                0
            } else {
                l.spec_periods_elapsed(now) * a / l.spec_periods_total()
            }
        } else {
            0
        }
    }

    /// Tokens still locked at `now`.
    pub open spec fn spec_amount_locked(self, now: i64) -> nat {
        (self.amount_initially_locked_native - self.spec_vested(now)) as nat
    }

    /// The voting power of the deposit at `now`, when it fits in a `u64`.
    pub open spec fn spec_voting_power(self, cfg: VotingMintConfig, now: i64) -> Option<nat> {
        let base = cfg.spec_baseline_vote_weight(self.amount_deposited_native as nat);
        let max_extra = cfg.spec_max_extra_lockup_vote_weight(self.spec_amount_locked(now));
        if base is None || max_extra is None {
            None
        } else {
            let p = base->Some_0 + locked_bonus(
                max_extra->Some_0,
                self.lockup.spec_seconds_left(now),
                cfg.lockup_saturation_secs,
            );
            if p > u64::MAX {
                None
            } else {
                Some(p)
            }
        }
    }

    /// The lockup bonus of the deposit at `now`, when it fits in a `u64`.
    pub open spec fn spec_voting_power_locked(self, cfg: VotingMintConfig, now: i64) -> Option<
        nat,
    > {
        let max_extra = cfg.spec_max_extra_lockup_vote_weight(self.spec_amount_locked(now));
        if max_extra is None {
            None
        } else {
            Some(
                locked_bonus(
                    max_extra->Some_0,
                    self.lockup.spec_seconds_left(now),
                    cfg.lockup_saturation_secs,
                ),
            )
        }
    }

    /// Tokens that have vested at `curr_ts`.
    pub fn vested(&self, curr_ts: i64) -> (r: u64)
        ensures
            r == self.spec_vested(curr_ts),
            r <= self.amount_initially_locked_native,
    {
        let a = self.amount_initially_locked_native;
        let kind = self.lockup.kind;
        if self.lockup.expired(curr_ts) || kind == LockupKind::NoLockup {
            a
        } else if kind == LockupKind::Daily || kind == LockupKind::Monthly {
            let t = self.lockup.periods_total();
            if t == 0 {
                0
            } else {
                let e = self.lockup.periods_elapsed(curr_ts);
                assert(e * a <= u64::MAX * u64::MAX) by (nonlinear_arith)
                    requires
                        e <= u64::MAX,
                        a <= u64::MAX,
                ;
                assert((e as int) * (a as int) / (t as int) <= a) by (nonlinear_arith)
                    requires
                        e <= t,
                        t > 0,
                ;
                ((e as u128 * a as u128) / t as u128) as u64
            }
        } else {
            0
        }
    }

    /// Tokens still locked at `curr_ts`.
    pub fn amount_locked(&self, curr_ts: i64) -> (r: u64)
        ensures
            r == self.spec_amount_locked(curr_ts),
            r + self.spec_vested(curr_ts) == self.amount_initially_locked_native,
    {
        self.amount_initially_locked_native - self.vested(curr_ts)
    }
    /// The lockup bonus out of `max_locked_vote_weight` that the remaining
    /// lockup time at `curr_ts` earns.
    pub fn voting_power_locked(
        &self,
        curr_ts: i64,
        max_locked_vote_weight: u64,
        lockup_saturation_secs: u64,
    ) -> (r: u64)
        ensures
            r == locked_bonus(
                max_locked_vote_weight as nat,
                self.lockup.spec_seconds_left(curr_ts),
                lockup_saturation_secs,
            ),
            r <= max_locked_vote_weight,
    {
        let secs_left = self.lockup.seconds_left(curr_ts);
        proof {
            lemma_locked_bonus_monotone(
                max_locked_vote_weight as nat,
                max_locked_vote_weight as nat,
                secs_left as nat,
                secs_left as nat,
                lockup_saturation_secs,
            );
        }
        if secs_left == 0 {
            0
        } else if lockup_saturation_secs == 0 || secs_left >= lockup_saturation_secs {
            max_locked_vote_weight
        } else {
            assert(max_locked_vote_weight * secs_left <= u64::MAX * u64::MAX) by (nonlinear_arith)
                requires
                    max_locked_vote_weight <= u64::MAX,
                    secs_left <= u64::MAX,
            ;
            ((max_locked_vote_weight as u128 * secs_left as u128)
                / lockup_saturation_secs as u128) as u64
        }
    }

    /// Voting power at `curr_ts`: the baseline weight of the deposited
    /// tokens plus the lockup bonus of the locked ones.
    pub fn voting_power(&self, voting_mint_config: &VotingMintConfig, curr_ts: i64) -> (r: Result<
        u64,
        ErrorCode,
    >)
        ensures
            r is Ok <==> self.spec_voting_power(*voting_mint_config, curr_ts) is Some,
            r is Ok ==> r->Ok_0 == self.spec_voting_power(*voting_mint_config, curr_ts)->Some_0,
            r is Err ==> r->Err_0 == ErrorCode::VoterWeightOverflow,
    {
        let baseline_vote_weight = voting_mint_config.baseline_vote_weight(
            self.amount_deposited_native,
        )?;
        let locked = self.amount_locked(curr_ts);
        let max_locked_vote_weight = voting_mint_config.max_extra_lockup_vote_weight(locked)?;
        let locked_vote_weight = self.voting_power_locked(
            curr_ts,
            max_locked_vote_weight,
            voting_mint_config.lockup_saturation_secs,
        );
        match baseline_vote_weight.checked_add(locked_vote_weight) {
            Some(p) => Ok(p),
            None => Err(ErrorCode::VoterWeightOverflow),
        }
    }

    /// The deposit with every token that has vested at `now` taken out of
    /// the lockup, and a periodic lockup restarted at the first period that
    /// has not passed.
    pub open spec fn spec_resolved(self, now: i64) -> DepositEntry {
        let l = self.lockup;
        DepositEntry {
            amount_initially_locked_native: self.spec_amount_locked(now) as u64,
            lockup: if l.kind.is_periodic() && l.spec_seconds_left(now) > 0 {
                Lockup {
                    start_ts: (l.start_ts + l.spec_periods_elapsed(now) * l.kind.spec_period_secs()) as i64,
                    ..l
                }
            } else {
                l
            },
            ..self
        }
    }

    /// Takes the tokens that have vested at `curr_ts` out of the lockup,
    /// so that nothing has vested afterwards and exactly as much is locked.
    pub fn resolve_vesting(&mut self, curr_ts: i64)
        requires
            old(self).lockup.wf(),
        ensures
            *final(self) == old(self).spec_resolved(curr_ts),
            final(self).lockup.wf(),
            final(self).lockup.end_ts == old(self).lockup.end_ts,
            final(self).lockup.kind == old(self).lockup.kind,
            final(self).spec_vested(curr_ts) == 0,
            final(self).spec_amount_locked(curr_ts) == old(self).spec_amount_locked(curr_ts),
    {
        let locked = self.amount_locked(curr_ts);
        let ghost before = *self;
        let kind = self.lockup.kind;
        if (kind == LockupKind::Daily || kind == LockupKind::Monthly) && !self.lockup.expired(
            curr_ts,
        ) {
            let e = self.lockup.periods_elapsed(curr_ts);
            let ps = kind.period_secs();
            proof {
                lemma_periods_fit(self.lockup);
                let t = self.lockup.spec_periods_total();
                assert(e * ps <= t * ps) by (nonlinear_arith)
                    requires
                        e <= t,
                ;
            }
            assert(e * ps <= u64::MAX * u64::MAX) by (nonlinear_arith)
                requires
                    e <= u64::MAX,
                    ps <= u64::MAX,
            ;
            self.lockup.start_ts = (self.lockup.start_ts as i128 + e as i128 * ps as i128) as i64;
            proof {
                lemma_resolved_nothing_vested(before, curr_ts);
            }
        }
        self.amount_initially_locked_native = locked;
    }
}

/// Whole periods of a lockup fit between its start and its end.
pub proof fn lemma_periods_fit(l: Lockup)
    requires
        l.wf(),
    ensures
        l.spec_periods_total() * l.kind.spec_period_secs() <= l.end_ts - l.start_ts,
{
    let ps = l.kind.spec_period_secs() as int;
    if ps > 0 && l.end_ts > l.start_ts {
        let span = l.end_ts - l.start_ts;
        assert((span / ps) * ps <= span) by (nonlinear_arith)
            requires
                ps > 0,
                span > 0,
        ;
        assert(l.spec_periods_total() == span / ps);
    } else {
        assert(l.spec_periods_total() == 0);
        assert(l.spec_periods_total() * l.kind.spec_period_secs() == 0) by (nonlinear_arith)
            requires
                l.spec_periods_total() == 0,
        ;
    }
}

/// After a periodic lockup is restarted at the current period, no period of
/// it has passed yet.
proof fn lemma_resolved_nothing_vested(d: DepositEntry, now: i64)
    requires
        d.lockup.wf(),
        d.lockup.kind.is_periodic(),
        d.lockup.spec_seconds_left(now) > 0,
    ensures
        d.spec_resolved(now).lockup.spec_periods_elapsed(now) == 0,
        d.spec_resolved(now).lockup.wf(),
{
    let l = d.lockup;
    let ps = l.kind.spec_period_secs() as int;
    let r = d.spec_resolved(now).lockup;
    lemma_periods_fit(l);
    let e = l.spec_periods_elapsed(now);
    assert(e * ps <= l.end_ts - l.start_ts) by (nonlinear_arith)
        requires
            e <= l.spec_periods_total(),
            l.spec_periods_total() * ps <= l.end_ts - l.start_ts,
            ps > 0,
    ;
    if now > l.start_ts {
        let span = now - l.start_ts;
        let full = l.end_ts - l.start_ts;
        assert(span / ps <= full / ps) by (nonlinear_arith)
            requires
                span < full,
                ps > 0,
                span > 0,
        ;
        assert(e == span / ps);
        assert(span - (span / ps) * ps < ps) by (nonlinear_arith)
            requires
                ps > 0,
                span > 0,
        ;
        assert(now - r.start_ts < ps);
        if now > r.start_ts {
            let rest = now - r.start_ts;
            assert(rest / ps == 0) by (nonlinear_arith)
                requires
                    0 < rest < ps,
            ;
        }
    }
}

/// Vesting never goes back in time, and never passes the amount that the
/// lockup started from.
pub proof fn lemma_vested_monotone(d: DepositEntry, t1: i64, t2: i64)
    requires
        t1 <= t2,
    ensures
        d.spec_vested(t1) <= d.spec_vested(t2),
        d.spec_vested(t2) <= d.amount_initially_locked_native,
{
    let l = d.lockup;
    let a = d.amount_initially_locked_native as nat;
    let t = l.spec_periods_total();
    lemma_vested_bounded(d, t1);
    lemma_vested_bounded(d, t2);
    if l.spec_seconds_left(t2) > 0 && l.kind.is_periodic() && t > 0 {
        let ps = l.kind.spec_period_secs() as int;
        let e1 = l.spec_periods_elapsed(t1);
        let e2 = l.spec_periods_elapsed(t2);
        if t1 > l.start_ts {
            assert((t1 - l.start_ts) / ps <= (t2 - l.start_ts) / ps) by (nonlinear_arith)
                requires
                    t1 - l.start_ts <= t2 - l.start_ts,
                    ps > 0,
            ;
        }
        assert(e1 <= e2);
        assert(e1 * a / t <= e2 * a / t) by (nonlinear_arith)
            requires
                e1 <= e2,
                t > 0,
        ;
    }
}

/// What has vested never exceeds what the lockup started from, so the
/// locked amount is that amount less what has vested.
pub proof fn lemma_vested_bounded(d: DepositEntry, now: i64)
    ensures
        d.spec_vested(now) <= d.amount_initially_locked_native,
        d.spec_amount_locked(now) + d.spec_vested(now) == d.amount_initially_locked_native,
{
    let l = d.lockup;
    let a = d.amount_initially_locked_native as nat;
    let t = l.spec_periods_total();
    if l.spec_seconds_left(now) > 0 && l.kind.is_periodic() && t > 0 {
        let e = l.spec_periods_elapsed(now);
        assert(e * a / t <= a) by (nonlinear_arith)
            requires
                e <= t,
                t > 0,
        ;
    }
}

/// Without an operation on the deposit, its voting power never grows with
/// time, and stays representable once it is.
pub proof fn lemma_voting_power_monotone(
    d: DepositEntry,
    cfg: VotingMintConfig,
    t1: i64,
    t2: i64,
)
    requires
        t1 <= t2,
    ensures
        d.spec_voting_power(cfg, t1) is Some ==> d.spec_voting_power(cfg, t2) is Some
            && d.spec_voting_power(cfg, t2)->Some_0 <= d.spec_voting_power(cfg, t1)->Some_0,
{
    lemma_vested_monotone(d, t1, t2);
    lemma_vested_bounded(d, t1);
    lemma_vested_bounded(d, t2);
    let l1 = d.spec_amount_locked(t1);
    let l2 = d.spec_amount_locked(t2);
    assert(l2 <= l1);
    lemma_scaled_weight_monotone(cfg.digit_shift, cfg.lockup_scaled_factor, l2, l1);
    let m1 = cfg.spec_max_extra_lockup_vote_weight(l1);
    let m2 = cfg.spec_max_extra_lockup_vote_weight(l2);
    if m1 is Some {
        lemma_locked_bonus_monotone(
            m2->Some_0,
            m1->Some_0,
            d.lockup.spec_seconds_left(t2),
            d.lockup.spec_seconds_left(t1),
            cfg.lockup_saturation_secs,
        );
    }
}

} // verus!
