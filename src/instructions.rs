use vstd::prelude::*;

use crate::deposit_entry::{lemma_vested_bounded, DepositEntry};
use crate::error::ErrorCode;
use crate::lockup::{Lockup, LockupKind};
use crate::pubkey::Pubkey;
use crate::registrar::{max_vote_weight_upto, MintSupply, Registrar, MAX_VOTING_MINTS};
use crate::voter::{Voter, MAX_DEPOSITS};
use crate::voting_mint_config::VotingMintConfig;
use vstd::array::spec_array_update;

verus! {

/// The voter is `old` with slot `i` replaced by `d` and nothing else changed.
pub open spec fn replaced_slot(new: Voter, old: Voter, i: int, d: DepositEntry) -> bool {
    &&& new.deposits@ == old.deposits@.update(i, d)
    &&& new.voter_authority == old.voter_authority
    &&& new.registrar == old.registrar
    &&& new.voter_bump == old.voter_bump
    &&& new.voter_weight_record_bump == old.voter_weight_record_bump
}

// ---------------------------------------------------------------- clawback

/// Why clawback of slot `d` by `authority` fails at `now`, if it does.
pub open spec fn clawback_entry_error(
    registrar: Registrar,
    authority: Pubkey,
    d: DepositEntry,
    now: i64,
) -> Option<ErrorCode> {
    if authority != registrar.clawback_authority {
        Some(ErrorCode::InvalidAuthority)
    } else if !d.is_used {
        Some(ErrorCode::DepositEntryIndexOutOfBounds)
    } else if !d.allow_clawback {
        Some(ErrorCode::ClawbackNotAllowedOnDeposit)
    } else if d.amount_deposited_native < d.spec_amount_locked(now) {
        Some(ErrorCode::InsufficientVestedTokens)
    } else {
        None
    }
}

/// Slot `d` after its unvested tokens were clawed back at `now`: the
/// vested tokens stay, and the lockup is over for good.
pub open spec fn spec_clawed_back(d: DepositEntry, now: i64) -> DepositEntry {
    DepositEntry {
        amount_deposited_native: (d.amount_deposited_native - d.spec_amount_locked(now)) as u64,
        amount_initially_locked_native: 0,
        lockup: Lockup { start_ts: now, end_ts: now, kind: LockupKind::NoLockup },
        allow_clawback: false,
        ..d
    }
}

/// Takes back every token of slot `deposit_entry_index` that has not vested
/// at `curr_ts`, and ends its lockup. Returns the amount that the token
/// custody must move out of the vault.
pub fn clawback(
    registrar: &Registrar,
    voter: &mut Voter,
    authority: &Pubkey,
    deposit_entry_index: u8,
    curr_ts: i64,
) -> (r: Result<u64, ErrorCode>)
    requires
        old(voter).wf(),
    ensures
        final(voter).wf(),
        (deposit_entry_index as usize) >= MAX_DEPOSITS ==> r is Err && r->Err_0
            == ErrorCode::DepositEntryIndexOutOfBounds,
        (deposit_entry_index as usize) < MAX_DEPOSITS ==> ({
            let d = old(voter).deposits@[deposit_entry_index as int];
            let e = clawback_entry_error(*registrar, *authority, d, curr_ts);
            &&& r is Err <==> e is Some
            &&& r is Err ==> r->Err_0 == e->Some_0
            &&& r is Ok ==> r->Ok_0 == d.spec_amount_locked(curr_ts) && replaced_slot(
                *final(voter),
                *old(voter),
                deposit_entry_index as int,
                spec_clawed_back(d, curr_ts),
            )
        }),
        r is Err ==> *final(voter) == *old(voter),
{
    let i = deposit_entry_index as usize;
    if i >= MAX_DEPOSITS {
        return Err(ErrorCode::DepositEntryIndexOutOfBounds);
    }
    if *authority != registrar.clawback_authority {
        return Err(ErrorCode::InvalidAuthority);
    }
    let mut d = voter.deposits[i];
    if !d.is_used {
        return Err(ErrorCode::DepositEntryIndexOutOfBounds);
    }
    if !d.allow_clawback {
        return Err(ErrorCode::ClawbackNotAllowedOnDeposit);
    }
    let unvested_amount = d.amount_locked(curr_ts);
    if d.amount_deposited_native < unvested_amount {
        return Err(ErrorCode::InsufficientVestedTokens);
    }
    d.amount_deposited_native = d.amount_deposited_native - unvested_amount;
    d.amount_initially_locked_native = 0;
    d.lockup = Lockup { start_ts: curr_ts, end_ts: curr_ts, kind: LockupKind::NoLockup };
    d.allow_clawback = false;
    voter.deposits[i] = d;
    Ok(unvested_amount)
}

/// Clawback is one-shot: once it has succeeded on a slot, it fails on that
/// slot at any later time, since the slot no longer allows clawback and
/// nothing in it is locked.
pub proof fn lemma_clawback_once(
    registrar: Registrar,
    authority: Pubkey,
    d: DepositEntry,
    now: i64,
    later: i64,
)
    requires
        clawback_entry_error(registrar, authority, d, now) is None,
    ensures
        !spec_clawed_back(d, now).allow_clawback,
        spec_clawed_back(d, now).amount_initially_locked_native == 0,
        spec_clawed_back(d, now).spec_amount_locked(later) == 0,
        clawback_entry_error(registrar, authority, spec_clawed_back(d, now), later) == Some(
            ErrorCode::ClawbackNotAllowedOnDeposit,
        ),
{
    lemma_vested_bounded(spec_clawed_back(d, now), later);
}

// ----------------------------------------------------- close_deposit_entry

/// Why closing slot `d` fails at `now`, if it does.
pub open spec fn close_entry_error(d: DepositEntry, now: i64) -> Option<ErrorCode> {
    if !d.is_used {
        Some(ErrorCode::DepositEntryIndexOutOfBounds)
    } else if d.amount_deposited_native != 0 {
        Some(ErrorCode::VotingTokenNonZero)
    } else if d.allow_clawback && !(d.lockup.end_ts < now) {
        Some(ErrorCode::DepositStillLocked)
    } else {
        None
    }
}

/// Frees an empty slot for reuse. A clawback-enabled slot can only be
/// freed once its lockup has ended, so that it cannot be reopened under
/// other terms before it is funded.
pub fn close_deposit_entry(voter: &mut Voter, deposit_entry_index: u8, curr_ts: i64) -> (r: Result<
    (),
    ErrorCode,
>)
    requires
        old(voter).wf(),
    ensures
        final(voter).wf(),
        (deposit_entry_index as usize) >= MAX_DEPOSITS ==> r is Err && r->Err_0
            == ErrorCode::DepositEntryIndexOutOfBounds,
        (deposit_entry_index as usize) < MAX_DEPOSITS ==> ({
            let e = close_entry_error(old(voter).deposits@[deposit_entry_index as int], curr_ts);
            &&& r is Err <==> e is Some
            &&& r is Err ==> r->Err_0 == e->Some_0
            &&& r is Ok ==> replaced_slot(
                *final(voter),
                *old(voter),
                deposit_entry_index as int,
                DepositEntry::spec_unused(),
            )
        }),
        r is Err ==> *final(voter) == *old(voter),
{
    let i = deposit_entry_index as usize;
    if i >= MAX_DEPOSITS {
        return Err(ErrorCode::DepositEntryIndexOutOfBounds);
    }
    let d = voter.deposits[i];
    if !d.is_used {
        return Err(ErrorCode::DepositEntryIndexOutOfBounds);
    }
    if d.amount_deposited_native != 0 {
        return Err(ErrorCode::VotingTokenNonZero);
    }
    if d.allow_clawback && !(d.lockup.end_ts < curr_ts) {
        return Err(ErrorCode::DepositStillLocked);
    }
    voter.deposits[i] = DepositEntry::default();
    Ok(())
}

/// Closing a slot fails while it holds tokens, and fails for a
/// clawback-enabled slot whose lockup has not ended.
pub proof fn lemma_close_entry_refused(d: DepositEntry, now: i64)
    requires
        d.amount_deposited_native != 0 || (d.allow_clawback && now < d.lockup.end_ts),
    ensures
        close_entry_error(d, now) is Some,
{
}

// ---------------------------------------------------------------- withdraw

/// Tokens of `d` that may leave it at `now`: those deposited and not locked.
pub open spec fn spec_withdrawable(d: DepositEntry, now: i64) -> nat {
    if d.amount_deposited_native >= d.spec_amount_locked(now) {
        (d.amount_deposited_native - d.spec_amount_locked(now)) as nat
    } else {
        0
    }
}

/// Takes `amount` vested, unlocked tokens out of a used slot.
pub fn withdraw(voter: &mut Voter, deposit_entry_index: u8, amount: u64, curr_ts: i64) -> (r:
    Result<(), ErrorCode>)
    requires
        old(voter).wf(),
    ensures
        final(voter).wf(),
        (deposit_entry_index as usize) >= MAX_DEPOSITS ==> r is Err && r->Err_0
            == ErrorCode::OutOfBoundsDepositEntryIndex,
        (deposit_entry_index as usize) < MAX_DEPOSITS ==> ({
            let d = old(voter).deposits@[deposit_entry_index as int];
            &&& !d.is_used ==> r is Err && r->Err_0 == ErrorCode::UnusedDepositEntryIndex
            &&& (d.is_used && amount > spec_withdrawable(d, curr_ts)) ==> r is Err && r->Err_0
                == ErrorCode::InsufficientVestedTokens
            &&& (d.is_used && amount <= spec_withdrawable(d, curr_ts)) ==> r is Ok
            &&& r is Ok ==> replaced_slot(
                *final(voter),
                *old(voter),
                deposit_entry_index as int,
                DepositEntry {
                    amount_deposited_native: (d.amount_deposited_native - amount) as u64,
                    ..d
                },
            )
        }),
        r is Err ==> *final(voter) == *old(voter),
{
    let i = deposit_entry_index as usize;
    if i >= MAX_DEPOSITS {
        return Err(ErrorCode::OutOfBoundsDepositEntryIndex);
    }
    let mut d = voter.deposits[i];
    if !d.is_used {
        return Err(ErrorCode::UnusedDepositEntryIndex);
    }
    let locked = d.amount_locked(curr_ts);
    let available = if d.amount_deposited_native >= locked {
        d.amount_deposited_native - locked
    } else {
        0
    };
    if amount > available {
        return Err(ErrorCode::InsufficientVestedTokens);
    }
    d.amount_deposited_native = d.amount_deposited_native - amount;
    voter.deposits[i] = d;
    Ok(())
}

// ------------------------------------------------------- internal_transfer

/// Slot `d` after `amount` tokens left it: its deposited amount shrinks by
/// `amount`, its locked amount too but not below zero.
pub open spec fn spec_transfer_out(d: DepositEntry, amount: u64) -> DepositEntry {
    DepositEntry {
        amount_deposited_native: (d.amount_deposited_native - amount) as u64,
        amount_initially_locked_native: if d.amount_initially_locked_native >= amount {
            (d.amount_initially_locked_native - amount) as u64
        } else {
            0
        },
        ..d
    }
}

/// Slot `d` after `amount` tokens arrived, all of them locked under its
/// lockup.
pub open spec fn spec_transfer_in(d: DepositEntry, amount: u64) -> DepositEntry {
    DepositEntry {
        amount_deposited_native: (d.amount_deposited_native + amount) as u64,
        amount_initially_locked_native: (d.amount_initially_locked_native + amount) as u64,
        ..d
    }
}

/// The source slot of an internal transfer once the tokens have left it.
pub open spec fn transfer_source(deps: Seq<DepositEntry>, s: int, amount: u64, now: i64) -> DepositEntry {
    spec_transfer_out(deps[s].spec_resolved(now), amount)
}

/// The target slot of an internal transfer before the tokens arrive.
pub open spec fn transfer_target(
    deps: Seq<DepositEntry>,
    s: int,
    t: int,
    amount: u64,
    now: i64,
) -> DepositEntry {
    if s == t {
        transfer_source(deps, s, amount, now).spec_resolved(now)
    } else {
        deps[t].spec_resolved(now)
    }
}

/// Why moving `amount` tokens from slot `s` to slot `t` fails at `now`,
/// if it does.
pub open spec fn internal_transfer_error(
    deps: Seq<DepositEntry>,
    s: int,
    t: int,
    amount: u64,
    now: i64,
) -> Option<ErrorCode> {
    if s >= MAX_DEPOSITS {
        Some(ErrorCode::OutOfBoundsDepositEntryIndex)
    } else if !deps[s].is_used {
        Some(ErrorCode::UnusedDepositEntryIndex)
    } else if deps[s].allow_clawback {
        Some(ErrorCode::InvalidDays)
    } else if amount > deps[s].amount_deposited_native {
        Some(ErrorCode::InsufficientDepositedTokens)
    } else if t >= MAX_DEPOSITS {
        Some(ErrorCode::OutOfBoundsDepositEntryIndex)
    } else if !deps[t].is_used {
        Some(ErrorCode::UnusedDepositEntryIndex)
    } else {
        let target = transfer_target(deps, s, t, amount, now);
        if target.voting_mint_config_idx != deps[s].voting_mint_config_idx {
            Some(ErrorCode::InvalidMint)
        } else if target.lockup.spec_seconds_left(now) < deps[s].lockup.spec_seconds_left(now) {
            Some(ErrorCode::InvalidLockupPeriod)
        } else if target.lockup.kind.spec_strictness() < deps[s].lockup.kind.spec_strictness() {
            Some(ErrorCode::InvalidLockupKind)
        } else if target.amount_deposited_native + amount > u64::MAX
            || target.amount_initially_locked_native + amount > u64::MAX {
            Some(ErrorCode::ArithmeticOverflow)
        } else {
            None
        }
    }
}

/// The deposits after a successful internal transfer.
pub open spec fn internal_transfer_result(
    deps: Seq<DepositEntry>,
    s: int,
    t: int,
    amount: u64,
    now: i64,
) -> Seq<DepositEntry> {
    deps.update(s, transfer_source(deps, s, amount, now)).update(
        t,
        spec_transfer_in(transfer_target(deps, s, t, amount, now), amount),
    )
}

/// Moves `amount` tokens between two used slots of the same voting mint.
/// Both slots first take their vested tokens out of their lockups; the
/// tokens then arrive fully locked under the target's lockup, which must
/// last at least as long and be at least as strict as the source's.
pub fn internal_transfer(
    voter: &mut Voter,
    source_deposit_entry_index: u8,
    target_deposit_entry_index: u8,
    amount: u64,
    curr_ts: i64,
) -> (r: Result<(), ErrorCode>)
    requires
        old(voter).wf(),
    ensures
        final(voter).wf(),
        ({
            let e = internal_transfer_error(
                old(voter).deposits@,
                source_deposit_entry_index as int,
                target_deposit_entry_index as int,
                amount,
                curr_ts,
            );
            &&& r is Err <==> e is Some
            &&& r is Err ==> r->Err_0 == e->Some_0 && *final(voter) == *old(voter)
            &&& r is Ok ==> final(voter).deposits@ == internal_transfer_result(
                old(voter).deposits@,
                source_deposit_entry_index as int,
                target_deposit_entry_index as int,
                amount,
                curr_ts,
            )
        }),
        final(voter).voter_authority == old(voter).voter_authority,
        final(voter).registrar == old(voter).registrar,
        final(voter).voter_bump == old(voter).voter_bump,
        final(voter).voter_weight_record_bump == old(voter).voter_weight_record_bump,
{
    let si = source_deposit_entry_index as usize;
    let ti = target_deposit_entry_index as usize;
    if si >= MAX_DEPOSITS {
        return Err(ErrorCode::OutOfBoundsDepositEntryIndex);
    }
    let original = voter.deposits[si];
    if !original.is_used {
        return Err(ErrorCode::UnusedDepositEntryIndex);
    }
    let mut source = original;
    source.resolve_vesting(curr_ts);
    let source_seconds_left = source.lockup.seconds_left(curr_ts);
    let source_strictness = source.lockup.kind.strictness();
    let source_mint_idx = source.voting_mint_config_idx;
    if source.allow_clawback {
        return Err(ErrorCode::InvalidDays);
    }
    if amount > source.amount_deposited_native {
        return Err(ErrorCode::InsufficientDepositedTokens);
    }
    source.amount_deposited_native = source.amount_deposited_native - amount;
    source.amount_initially_locked_native = source.amount_initially_locked_native.saturating_sub(
        amount,
    );
    if ti >= MAX_DEPOSITS {
        return Err(ErrorCode::OutOfBoundsDepositEntryIndex);
    }
    let mut target = if si == ti {
        source
    } else {
        voter.deposits[ti]
    };
    if !target.is_used {
        return Err(ErrorCode::UnusedDepositEntryIndex);
    }
    target.resolve_vesting(curr_ts);
    if target.voting_mint_config_idx != source_mint_idx {
        return Err(ErrorCode::InvalidMint);
    }
    if target.lockup.seconds_left(curr_ts) < source_seconds_left {
        return Err(ErrorCode::InvalidLockupPeriod);
    }
    if target.lockup.kind.strictness() < source_strictness {
        return Err(ErrorCode::InvalidLockupKind);
    }
    let deposited = match target.amount_deposited_native.checked_add(amount) {
        Some(v) => v,
        None => return Err(ErrorCode::ArithmeticOverflow),
    };
    let locked = match target.amount_initially_locked_native.checked_add(amount) {
        Some(v) => v,
        None => return Err(ErrorCode::ArithmeticOverflow),
    };
    target.amount_deposited_native = deposited;
    target.amount_initially_locked_native = locked;
    voter.deposits[si] = source;
    voter.deposits[ti] = target;
    Ok(())
}

/// An internal transfer never moves tokens to a slot whose lockup ends
/// sooner or is less strict than the source's.
pub proof fn lemma_internal_transfer_keeps_commitment(
    deps: Seq<DepositEntry>,
    s: int,
    t: int,
    amount: u64,
    now: i64,
)
    requires
        0 <= s,
        0 <= t,
        deps.len() == MAX_DEPOSITS,
        internal_transfer_error(deps, s, t, amount, now) is None,
    ensures
        ({
            let after = internal_transfer_result(deps, s, t, amount, now)[t];
            &&& after.lockup.spec_seconds_left(now) >= deps[s].lockup.spec_seconds_left(now)
            &&& after.lockup.kind.spec_strictness() >= deps[s].lockup.kind.spec_strictness()
            &&& after.voting_mint_config_idx == deps[s].voting_mint_config_idx
        }),
{
}

// ------------------------------------------------------------ reset_lockup

/// Why a lockup of `kind` over `periods` periods from `start` cannot be
/// made, if it cannot.
pub open spec fn new_lockup_error(kind: LockupKind, start: i64, periods: u32) -> Option<ErrorCode> {
    if kind != LockupKind::NoLockup && periods == 0 {
        Some(ErrorCode::InvalidLockupPeriod)
    } else if start + periods * kind.spec_period_secs() > i64::MAX {
        Some(ErrorCode::ArithmeticOverflow)
    } else {
        None
    }
}

/// The lockup of `kind` over `periods` periods from `start`.
pub open spec fn spec_new_lockup(kind: LockupKind, start: i64, periods: u32) -> Lockup {
    Lockup { start_ts: start, end_ts: (start + periods * kind.spec_period_secs()) as i64, kind }
}

/// Why re-locking `amount` tokens of slot `s` into slot `t` under a lockup
/// of `kind` over `periods` periods fails at `now`, if it does.
pub open spec fn reset_lockup_error(
    deps: Seq<DepositEntry>,
    s: int,
    t: int,
    kind: LockupKind,
    periods: u32,
    amount: u64,
    now: i64,
) -> Option<ErrorCode> {
    if s >= MAX_DEPOSITS {
        Some(ErrorCode::OutOfBoundsDepositEntryIndex)
    } else if !deps[s].is_used {
        Some(ErrorCode::UnusedDepositEntryIndex)
    } else if amount > deps[s].amount_deposited_native {
        Some(ErrorCode::InsufficientDepositedTokens)
    } else if periods * kind.spec_period_secs() < deps[s].lockup.spec_seconds_left(now) {
        Some(ErrorCode::InvalidLockupPeriod)
    } else if kind.spec_strictness() < deps[s].lockup.kind.spec_strictness() {
        Some(ErrorCode::InvalidLockupKind)
    } else if deps[s].allow_clawback {
        Some(ErrorCode::InvalidDays)
    } else if s == t {
        if amount < deps[s].spec_amount_locked(now) {
            Some(ErrorCode::MustKeepTokensLocked)
        } else {
            new_lockup_error(kind, now, periods)
        }
    } else if t >= MAX_DEPOSITS {
        Some(ErrorCode::OutOfBoundsDepositEntryIndex)
    } else if deps[t].is_used {
        Some(ErrorCode::DepositEntryFull)
    } else {
        new_lockup_error(kind, now, periods)
    }
}

/// The deposits after a successful re-lock.
pub open spec fn reset_lockup_result(
    deps: Seq<DepositEntry>,
    s: int,
    t: int,
    kind: LockupKind,
    periods: u32,
    amount: u64,
    now: i64,
) -> Seq<DepositEntry> {
    let lockup = spec_new_lockup(kind, now, periods);
    if s == t {
        deps.update(s, DepositEntry { amount_initially_locked_native: amount, lockup, ..deps[s] })
    } else {
        deps.update(s, spec_transfer_out(deps[s], amount)).update(
            t,
            DepositEntry {
                lockup,
                amount_deposited_native: amount,
                amount_initially_locked_native: amount,
                is_used: true,
                allow_clawback: false,
                voting_mint_config_idx: deps[s].voting_mint_config_idx,
            },
        )
    }
}

/// Puts `amount` tokens of a used slot under a new lockup of `kind` over
/// `periods` periods starting at `curr_ts`: in the slot itself, where at
/// least the tokens locked now must stay locked, or in an unused slot. The
/// new lockup may not end sooner or be less strict than the old one.
pub fn reset_lockup(
    voter: &mut Voter,
    deposit_entry_index: u8,
    target_deposit_entry_index: u8,
    kind: LockupKind,
    periods: u32,
    amount: u64,
    curr_ts: i64,
) -> (r: Result<(), ErrorCode>)
    requires
        old(voter).wf(),
    ensures
        final(voter).wf(),
        ({
            let e = reset_lockup_error(
                old(voter).deposits@,
                deposit_entry_index as int,
                target_deposit_entry_index as int,
                kind,
                periods,
                amount,
                curr_ts,
            );
            &&& r is Err <==> e is Some
            &&& r is Err ==> r->Err_0 == e->Some_0 && *final(voter) == *old(voter)
            &&& r is Ok ==> final(voter).deposits@ == reset_lockup_result(
                old(voter).deposits@,
                deposit_entry_index as int,
                target_deposit_entry_index as int,
                kind,
                periods,
                amount,
                curr_ts,
            )
        }),
        final(voter).voter_authority == old(voter).voter_authority,
        final(voter).registrar == old(voter).registrar,
        final(voter).voter_bump == old(voter).voter_bump,
        final(voter).voter_weight_record_bump == old(voter).voter_weight_record_bump,
{
    let si = deposit_entry_index as usize;
    let ti = target_deposit_entry_index as usize;
    if si >= MAX_DEPOSITS {
        return Err(ErrorCode::OutOfBoundsDepositEntryIndex);
    }
    let mut source = voter.deposits[si];
    if !source.is_used {
        return Err(ErrorCode::UnusedDepositEntryIndex);
    }
    if amount > source.amount_deposited_native {
        return Err(ErrorCode::InsufficientDepositedTokens);
    }
    let ps = kind.period_secs();
    assert(periods * ps <= 0xffff_ffff * 2628000) by (nonlinear_arith)
        requires
            periods <= 0xffff_ffff,
            ps <= 2628000,
    ;
    if (periods as u64) * ps < source.lockup.seconds_left(curr_ts) {
        return Err(ErrorCode::InvalidLockupPeriod);
    }
    if kind.strictness() < source.lockup.kind.strictness() {
        return Err(ErrorCode::InvalidLockupKind);
    }
    if source.allow_clawback {
        return Err(ErrorCode::InvalidDays);
    }
    if si == ti {
        if amount < source.amount_locked(curr_ts) {
            return Err(ErrorCode::MustKeepTokensLocked);
        }
        let lockup = Lockup::new_from_periods(kind, curr_ts, periods)?;
        source.amount_initially_locked_native = amount;
        source.lockup = lockup;
        voter.deposits[si] = source;
    } else {
        source.amount_initially_locked_native = source.amount_initially_locked_native.saturating_sub(
            amount,
        );
        source.amount_deposited_native = source.amount_deposited_native - amount;
        if ti >= MAX_DEPOSITS {
            return Err(ErrorCode::OutOfBoundsDepositEntryIndex);
        }
        if voter.deposits[ti].is_used {
            return Err(ErrorCode::DepositEntryFull);
        }
        let lockup = Lockup::new_from_periods(kind, curr_ts, periods)?;
        let target = DepositEntry {
            lockup,
            amount_deposited_native: amount,
            amount_initially_locked_native: amount,
            is_used: true,
            allow_clawback: false,
            voting_mint_config_idx: source.voting_mint_config_idx,
        };
        voter.deposits[si] = source;
        voter.deposits[ti] = target;
    }
    Ok(())
}

/// A re-lock never puts tokens under a lockup that ends sooner or is less
/// strict than the one they were under.
pub proof fn lemma_reset_lockup_keeps_commitment(
    deps: Seq<DepositEntry>,
    s: int,
    t: int,
    kind: LockupKind,
    periods: u32,
    amount: u64,
    now: i64,
)
    requires
        0 <= s,
        0 <= t,
        deps.len() == MAX_DEPOSITS,
        reset_lockup_error(deps, s, t, kind, periods, amount, now) is None,
    ensures
        ({
            let after = reset_lockup_result(deps, s, t, kind, periods, amount, now)[t];
            &&& after.lockup.spec_seconds_left(now) >= deps[s].lockup.spec_seconds_left(now)
            &&& after.lockup.kind.spec_strictness() >= deps[s].lockup.kind.spec_strictness()
            &&& after.voting_mint_config_idx == deps[s].voting_mint_config_idx
        }),
{
}

// ----------------------------------------------------------------- deposit

/// The slot that a deposit into slot `d` fills before the tokens arrive:
/// the slot itself with its vested tokens taken out of the lockup, or, for
/// an unused slot, a new one under `lockup`.
pub open spec fn deposit_base(
    d: DepositEntry,
    voting_mint_config_idx: u8,
    lockup: Lockup,
    allow_clawback: bool,
    now: i64,
) -> DepositEntry {
    if d.is_used {
        d.spec_resolved(now)
    } else {
        DepositEntry {
            lockup,
            amount_deposited_native: 0,
            amount_initially_locked_native: 0,
            is_used: true,
            allow_clawback,
            voting_mint_config_idx,
        }.spec_resolved(now)
    }
}

/// Why depositing `amount` tokens into slot `i` fails at `now`, if it does.
pub open spec fn deposit_error(
    registrar: Registrar,
    deps: Seq<DepositEntry>,
    i: int,
    voting_mint_config_idx: u8,
    lockup: Lockup,
    allow_clawback: bool,
    amount: u64,
    now: i64,
) -> Option<ErrorCode> {
    if i >= MAX_DEPOSITS {
        Some(ErrorCode::OutOfBoundsDepositEntryIndex)
    } else if voting_mint_config_idx >= MAX_VOTING_MINTS {
        Some(ErrorCode::OutOfBoundsVotingMintConfigIndex)
    } else if !registrar.voting_mints@[voting_mint_config_idx as int].spec_in_use() {
        Some(ErrorCode::VotingMintNotFound)
    } else if !lockup.wf() {
        Some(ErrorCode::InvalidEndTs)
    } else if deps[i].is_used && deps[i].voting_mint_config_idx != voting_mint_config_idx {
        Some(ErrorCode::InvalidMint)
    } else if deps[i].is_used && deps[i].lockup.spec_seconds_left(now) < lockup.spec_seconds_left(
        now,
    ) {
        Some(ErrorCode::InvalidLockupPeriod)
    } else if deps[i].is_used && deps[i].lockup.kind.spec_strictness()
        < lockup.kind.spec_strictness() {
        Some(ErrorCode::InvalidLockupKind)
    } else {
        let base = deposit_base(deps[i], voting_mint_config_idx, lockup, allow_clawback, now);
        if base.amount_deposited_native + amount > u64::MAX || base.amount_initially_locked_native
            + amount > u64::MAX {
            Some(ErrorCode::ArithmeticOverflow)
        } else {
            None
        }
    }
}

/// Adds `amount` tokens of voting mint `voting_mint_config_idx` to slot
/// `deposit_entry_index`, all of them locked. An unused slot is opened
/// under `lockup`; a used one must hold the same mint under a lockup at
/// least as long and as strict as `lockup`, and keeps its own. The caller
/// moves the tokens into the vault together with this update.
pub fn deposit(
    registrar: &Registrar,
    voter: &mut Voter,
    deposit_entry_index: u8,
    voting_mint_config_idx: u8,
    lockup: Lockup,
    allow_clawback: bool,
    amount: u64,
    curr_ts: i64,
) -> (r: Result<(), ErrorCode>)
    requires
        old(voter).wf(),
    ensures
        final(voter).wf(),
        ({
            let i = deposit_entry_index as int;
            let e = deposit_error(
                *registrar,
                old(voter).deposits@,
                i,
                voting_mint_config_idx,
                lockup,
                allow_clawback,
                amount,
                curr_ts,
            );
            &&& r is Err <==> e is Some
            &&& r is Err ==> r->Err_0 == e->Some_0 && *final(voter) == *old(voter)
            &&& r is Ok ==> replaced_slot(
                *final(voter),
                *old(voter),
                i,
                spec_transfer_in(
                    deposit_base(
                        old(voter).deposits@[i],
                        voting_mint_config_idx,
                        lockup,
                        allow_clawback,
                        curr_ts,
                    ),
                    amount,
                ),
            )
        }),
{
    let i = deposit_entry_index as usize;
    if i >= MAX_DEPOSITS {
        return Err(ErrorCode::OutOfBoundsDepositEntryIndex);
    }
    if voting_mint_config_idx as usize >= MAX_VOTING_MINTS {
        return Err(ErrorCode::OutOfBoundsVotingMintConfigIndex);
    }
    if !registrar.voting_mints[voting_mint_config_idx as usize].in_use() {
        return Err(ErrorCode::VotingMintNotFound);
    }
    if lockup.start_ts > lockup.end_ts {
        return Err(ErrorCode::InvalidEndTs);
    }
    let current = voter.deposits[i];
    let mut d = if current.is_used {
        if current.voting_mint_config_idx != voting_mint_config_idx {
            return Err(ErrorCode::InvalidMint);
        }
        if current.lockup.seconds_left(curr_ts) < lockup.seconds_left(curr_ts) {
            return Err(ErrorCode::InvalidLockupPeriod);
        }
        if current.lockup.kind.strictness() < lockup.kind.strictness() {
            return Err(ErrorCode::InvalidLockupKind);
        }
        current
    } else {
        DepositEntry {
            lockup,
            amount_deposited_native: 0,
            amount_initially_locked_native: 0,
            is_used: true,
            allow_clawback,
            voting_mint_config_idx,
        }
    };
    d.resolve_vesting(curr_ts);
    let deposited = match d.amount_deposited_native.checked_add(amount) {
        Some(v) => v,
        None => return Err(ErrorCode::ArithmeticOverflow),
    };
    let locked = match d.amount_initially_locked_native.checked_add(amount) {
        Some(v) => v,
        None => return Err(ErrorCode::ArithmeticOverflow),
    };
    d.amount_deposited_native = deposited;
    d.amount_initially_locked_native = locked;
    voter.deposits[i] = d;
    Ok(())
}

// --------------------------------------------------- configure_voting_mint

/// Why configuring voting-mint slot `idx` with `cfg` fails, if it does.
pub open spec fn configure_error(
    registrar: Registrar,
    idx: u16,
    cfg: VotingMintConfig,
    mint_supplies: Seq<MintSupply>,
) -> Option<ErrorCode> {
    if cfg.deposit_scaled_factor == 0 && cfg.lockup_scaled_factor == 0 {
        Some(ErrorCode::InvalidRate)
    } else if idx >= MAX_VOTING_MINTS {
        Some(ErrorCode::OutOfBoundsVotingMintConfigIndex)
    } else if registrar.voting_mints@[idx as int].spec_in_use() {
        Some(ErrorCode::VotingMintConfigIndexAlreadyInUse)
    } else {
        match max_vote_weight_upto(
            registrar.voting_mints@.update(idx as int, cfg),
            mint_supplies,
            4,
        ) {
            Err(e) => Some(e),
            Ok(_) => None,
        }
    }
}

/// Configures the unused voting-mint slot `idx`. The new configuration is
/// rejected where the largest vote weight that all configured mints could
/// give, from `mint_supplies`, would not fit in a `u64`.
pub fn configure_voting_mint(
    registrar: &mut Registrar,
    idx: u16,
    digit_shift: i8,
    deposit_scaled_factor: u64,
    lockup_scaled_factor: u64,
    lockup_saturation_secs: u64,
    mint: Pubkey,
    grant_authority: Option<Pubkey>,
    mint_supplies: &Vec<MintSupply>,
) -> (r: Result<(), ErrorCode>)
    ensures
        ({
            let cfg = VotingMintConfig {
                mint,
                grant_authority: match grant_authority {
                    Some(a) => a,
                    None => Pubkey { w0: 0, w1: 0, w2: 0, w3: 0 },
                },
                deposit_scaled_factor,
                lockup_scaled_factor,
                lockup_saturation_secs,
                digit_shift,
            };
            let e = configure_error(*old(registrar), idx, cfg, mint_supplies@);
            &&& r is Err <==> e is Some
            &&& r is Err ==> r->Err_0 == e->Some_0 && *final(registrar) == *old(registrar)
            &&& r is Ok ==> *final(registrar) == Registrar {
                voting_mints: spec_array_update(old(registrar).voting_mints, idx as int, cfg),
                ..*old(registrar)
            }
        }),
{
    if deposit_scaled_factor == 0 && lockup_scaled_factor == 0 {
        return Err(ErrorCode::InvalidRate);
    }
    let i = idx as usize;
    if i >= MAX_VOTING_MINTS {
        return Err(ErrorCode::OutOfBoundsVotingMintConfigIndex);
    }
    if registrar.voting_mints[i].in_use() {
        return Err(ErrorCode::VotingMintConfigIndexAlreadyInUse);
    }
    let cfg = VotingMintConfig {
        mint,
        grant_authority: match grant_authority {
            Some(a) => a,
            None => Pubkey::zeroed(),
        },
        deposit_scaled_factor,
        lockup_scaled_factor,
        lockup_saturation_secs,
        digit_shift,
    };
    let mut candidate = *registrar;
    candidate.voting_mints[i] = cfg;
    assert(candidate.voting_mints@ == registrar.voting_mints@.update(i as int, cfg));
    candidate.max_vote_weight(mint_supplies)?;
    *registrar = candidate;
    Ok(())
}

// ------------------------------------------------------------- close_voter

/// A token account as the closing of a voter sees it.
#[derive(Clone, Copy, Debug, PartialEq, Eq, Structural)]
pub struct TokenBalance {
    pub owner: Pubkey,
    pub mint: Pubkey,
    pub amount: u64,
}

/// The first complaint about the first `n` vaults handed to
/// [`close_voter`]: each must belong to the voter and be empty.
pub open spec fn empty_vaults_error(vaults: Seq<TokenBalance>, voter_key: Pubkey, n: nat) -> Option<
    ErrorCode,
>
    decreases n,
{
    if n == 0 {
        None
    } else {
        match empty_vaults_error(vaults, voter_key, (n - 1) as nat) {
            Some(e) => Some(e),
            None => if vaults[n - 1].owner != voter_key {
                Some(ErrorCode::InvalidAuthority)
            } else if vaults[n - 1].amount != 0 {
                Some(ErrorCode::VaultTokenNonZero)
            } else {
                None
            },
        }
    }
}

/// Why closing a voter with the vaults `vaults` fails, if it does.
pub open spec fn close_voter_error(
    deps: Seq<DepositEntry>,
    voter_key: Pubkey,
    vaults: Seq<TokenBalance>,
) -> Option<ErrorCode> {
    if exists|i: int| 0 <= i < MAX_DEPOSITS && #[trigger] deps[i].amount_deposited_native != 0 {
        Some(ErrorCode::VotingTokenNonZero)
    } else {
        empty_vaults_error(vaults, voter_key, vaults.len())
    }
}

/// Closes a voter that holds no tokens: checks that every vault handed in
/// belongs to the voter (whose address is `voter_key`) and is empty, and
/// zeroes the record so that it cannot be brought back with stale data.
/// The caller then closes the vaults and the record.
pub fn close_voter(voter: &mut Voter, voter_key: &Pubkey, vaults: &Vec<TokenBalance>) -> (r: Result<
    (),
    ErrorCode,
>)
    requires
        old(voter).wf(),
    ensures
        final(voter).wf(),
        ({
            let e = close_voter_error(old(voter).deposits@, *voter_key, vaults@);
            &&& r is Err <==> e is Some
            &&& r is Err ==> r->Err_0 == e->Some_0 && *final(voter) == *old(voter)
            &&& r is Ok ==> final(voter).spec_zeroed()
        }),
{
    let mut i: usize = 0;
    while i < MAX_DEPOSITS
        invariant
            i <= MAX_DEPOSITS,
            voter.wf(),
            *voter == *old(voter),
            forall|j: int| 0 <= j < i ==> #[trigger] voter.deposits@[j].amount_deposited_native == 0,
        decreases MAX_DEPOSITS - i,
    {
        if voter.deposits[i].amount_deposited_native != 0 {
            return Err(ErrorCode::VotingTokenNonZero);
        }
        i = i + 1;
    }
    let mut k: usize = 0;
    while k < vaults.len()
        invariant
            k <= vaults.len(),
            voter.wf(),
            *voter == *old(voter),
            forall|j: int|
                0 <= j < MAX_DEPOSITS ==> #[trigger] voter.deposits@[j].amount_deposited_native == 0,
            empty_vaults_error(vaults@, *voter_key, k as nat) is None,
        decreases vaults.len() - k,
    {
        let v = vaults[k];
        if v.owner != *voter_key || v.amount != 0 {
            proof {
                lemma_vaults_error_stays(vaults@, *voter_key, (k + 1) as nat, vaults.len() as nat);
            }
            if v.owner != *voter_key {
                return Err(ErrorCode::InvalidAuthority);
            }
            return Err(ErrorCode::VaultTokenNonZero);
        }
        k = k + 1;
    }
    *voter = Voter::zeroed();
    Ok(())
}

proof fn lemma_vaults_error_stays(vaults: Seq<TokenBalance>, voter_key: Pubkey, k: nat, n: nat)
    requires
        k <= n,
        empty_vaults_error(vaults, voter_key, k) is Some,
    ensures
        empty_vaults_error(vaults, voter_key, n) == empty_vaults_error(vaults, voter_key, k),
    decreases n - k,
{
    if k < n {
        lemma_vaults_error_stays(vaults, voter_key, k, (n - 1) as nat);
    }
}

/// The used slots among the first `n`, in order.
pub open spec fn used_upto(deps: Seq<DepositEntry>, n: nat) -> Seq<DepositEntry>
    decreases n,
{
    if n == 0 {
        Seq::empty()
    } else if deps[n - 1].is_used {
        used_upto(deps, (n - 1) as nat).push(deps[n - 1])
    } else {
        used_upto(deps, (n - 1) as nat)
    }
}

proof fn lemma_used_prefix(deps: Seq<DepositEntry>, m: nat, n: nat)
    requires
        m <= n,
    ensures
        used_upto(deps, m).len() <= used_upto(deps, n).len(),
        forall|k: int|
            0 <= k < used_upto(deps, m).len() ==> #[trigger] used_upto(deps, n)[k] == used_upto(
                deps,
                m,
            )[k],
    decreases n - m,
{
    if m < n {
        lemma_used_prefix(deps, m, (n - 1) as nat);
    }
}

/// The first complaint about the first `n` pairs of a used slot and its
/// vault: the vault must belong to the voter and hold the slot's mint.
pub open spec fn paired_vaults_error(
    used: Seq<DepositEntry>,
    vaults: Seq<TokenBalance>,
    registrar: Registrar,
    voter_key: Pubkey,
    n: nat,
) -> Option<ErrorCode>
    decreases n,
{
    if n == 0 {
        None
    } else {
        match paired_vaults_error(used, vaults, registrar, voter_key, (n - 1) as nat) {
            Some(e) => Some(e),
            None => if vaults[n - 1].owner != voter_key {
                Some(ErrorCode::InvalidAuthority)
            } else if vaults[n - 1].mint != registrar.voting_mints@[used[n
                - 1].voting_mint_config_idx as int].mint {
                Some(ErrorCode::InvalidMint)
            } else {
                None
            },
        }
    }
}

proof fn lemma_paired_error_stays(
    used: Seq<DepositEntry>,
    vaults: Seq<TokenBalance>,
    registrar: Registrar,
    voter_key: Pubkey,
    k: nat,
    n: nat,
)
    requires
        k <= n,
        paired_vaults_error(used, vaults, registrar, voter_key, k) is Some,
    ensures
        paired_vaults_error(used, vaults, registrar, voter_key, n) == paired_vaults_error(
            used,
            vaults,
            registrar,
            voter_key,
            k,
        ),
    decreases n - k,
{
    if k < n {
        lemma_paired_error_stays(used, vaults, registrar, voter_key, k, (n - 1) as nat);
    }
}

/// Why closing a voter whose tokens have all unlocked fails at `now`, if it
/// does. `vaults` are the vaults of the used slots in order and
/// `n_accounts` counts them together with their destinations.
pub open spec fn close_voter_v2_error(
    registrar: Registrar,
    deps: Seq<DepositEntry>,
    voter_key: Pubkey,
    vaults: Seq<TokenBalance>,
    n_accounts: usize,
    now: i64,
) -> Option<ErrorCode> {
    let used = used_upto(deps, MAX_DEPOSITS as nat);
    if n_accounts != 2 * used.len() || vaults.len() != used.len() {
        Some(ErrorCode::InvalidAccountCount)
    } else if exists|i: int| 0 <= i < MAX_DEPOSITS && #[trigger] deps[i].spec_amount_locked(now) > 0 {
        Some(ErrorCode::DepositStillLocked)
    } else {
        paired_vaults_error(used, vaults, registrar, voter_key, used.len())
    }
}

/// Closes a voter none of whose tokens is locked at `curr_ts`. `vaults`
/// holds the vault of each used slot, in slot order; `n_accounts` counts
/// those vaults and the destination account paired with each. Checks each
/// vault, zeroes the record, and returns how many tokens the caller must
/// move out of each vault before closing it.
pub fn close_voter_v2(
    registrar: &Registrar,
    voter: &mut Voter,
    voter_key: &Pubkey,
    vaults: &Vec<TokenBalance>,
    n_accounts: usize,
    curr_ts: i64,
) -> (r: Result<Vec<u64>, ErrorCode>)
    requires
        old(voter).wf(),
    ensures
        final(voter).wf(),
        ({
            let e = close_voter_v2_error(
                *registrar,
                old(voter).deposits@,
                *voter_key,
                vaults@,
                n_accounts,
                curr_ts,
            );
            &&& r is Err <==> e is Some
            &&& r is Err ==> r->Err_0 == e->Some_0 && *final(voter) == *old(voter)
            &&& r is Ok ==> final(voter).spec_zeroed()
            &&& r is Ok ==> r->Ok_0@.len() == vaults@.len() && forall|k: int|
                0 <= k < vaults@.len() ==> #[trigger] r->Ok_0@[k] == vaults@[k].amount
        }),
{
    let ghost deps = voter.deposits@;
    let ghost used = used_upto(deps, MAX_DEPOSITS as nat);
    let mut active: usize = 0;
    let mut i: usize = 0;
    while i < MAX_DEPOSITS
        invariant
            i <= MAX_DEPOSITS,
            deps == voter.deposits@,
            voter.wf(),
            *voter == *old(voter),
            used == used_upto(deps, MAX_DEPOSITS as nat),
            active == used_upto(deps, i as nat).len(),
            active <= i,
        decreases MAX_DEPOSITS - i,
    {
        if voter.deposits[i].is_used {
            active = active + 1;
        }
        i = i + 1;
    }
    if n_accounts / 2 != active || n_accounts % 2 != 0 || vaults.len() != active {
        return Err(ErrorCode::InvalidAccountCount);
    }
    let mut i: usize = 0;
    while i < MAX_DEPOSITS
        invariant
            i <= MAX_DEPOSITS,
            deps == voter.deposits@,
            voter.wf(),
            *voter == *old(voter),
            used == used_upto(deps, MAX_DEPOSITS as nat),
            vaults@.len() == used.len(),
            n_accounts == 2 * used.len(),
            forall|j: int| 0 <= j < i ==> #[trigger] voter.deposits@[j].spec_amount_locked(curr_ts) == 0,
        decreases MAX_DEPOSITS - i,
    {
        if voter.deposits[i].amount_locked(curr_ts) > 0 {
            return Err(ErrorCode::DepositStillLocked);
        }
        i = i + 1;
    }
    let mut k: usize = 0;
    let mut i: usize = 0;
    while i < MAX_DEPOSITS
        invariant
            i <= MAX_DEPOSITS,
            deps == voter.deposits@,
            used == used_upto(deps, MAX_DEPOSITS as nat),
            vaults@.len() == used.len(),
            n_accounts == 2 * used.len(),
            voter.wf(),
            *voter == *old(voter),
            forall|j: int|
                0 <= j < MAX_DEPOSITS ==> #[trigger] voter.deposits@[j].spec_amount_locked(curr_ts) == 0,
            k == used_upto(deps, i as nat).len(),
            paired_vaults_error(used, vaults@, *registrar, *voter_key, k as nat) is None,
        decreases MAX_DEPOSITS - i,
    {
        let d = voter.deposits[i];
        proof {
            lemma_used_prefix(deps, (i + 1) as nat, MAX_DEPOSITS as nat);
        }
        if d.is_used {
            assert(used[k as int] == d);
            let v = vaults[k];
            let mint = registrar.voting_mints[d.voting_mint_config_idx as usize].mint;
            if v.owner != *voter_key || v.mint != mint {
                proof {
                    lemma_paired_error_stays(
                        used,
                        vaults@,
                        *registrar,
                        *voter_key,
                        (k + 1) as nat,
                        used.len(),
                    );
                }
                if v.owner != *voter_key {
                    return Err(ErrorCode::InvalidAuthority);
                }
                return Err(ErrorCode::InvalidMint);
            }
            k = k + 1;
        }
        i = i + 1;
    }
    let mut amounts: Vec<u64> = Vec::new();
    let mut k: usize = 0;
    while k < vaults.len()
        invariant
            k <= vaults.len(),
            voter.wf(),
            amounts@.len() == k,
            forall|m: int| 0 <= m < k ==> #[trigger] amounts@[m] == vaults@[m].amount,
        decreases vaults.len() - k,
    {
        amounts.push(vaults[k].amount);
        k = k + 1;
    }
    *voter = Voter::zeroed();
    Ok(amounts)
}

} // verus!
