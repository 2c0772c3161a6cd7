use voter_stake_registry::deposit_entry::DepositEntry;
use voter_stake_registry::error::ErrorCode;
use voter_stake_registry::instructions::{
    clawback, close_deposit_entry, close_voter, close_voter_v2, configure_voting_mint, deposit,
    internal_transfer, reset_lockup, withdraw, TokenBalance,
};
use voter_stake_registry::lockup::{Lockup, LockupKind, SECS_PER_DAY, SECS_PER_MONTH};
use voter_stake_registry::pubkey::Pubkey;
use voter_stake_registry::registrar::{MintSupply, Registrar};
use voter_stake_registry::voter::{TokenOwnerRecord, Voter};
use voter_stake_registry::voting_mint_config::VotingMintConfig;

const T0: i64 = 1_000_000;
const YEAR: u64 = 365 * 86400;

fn key(n: u64) -> Pubkey {
    Pubkey::new_from_words(n, 0, 0, 0)
}

fn registrar() -> Registrar {
    let mut r = Registrar::new(key(1), key(2), key(3), key(4), key(5), 0);
    let supplies = vec![MintSupply { mint: key(10), supply: 1_000_000 }];
    configure_voting_mint(&mut r, 0, 0, 1_000_000_000, 1_000_000_000, YEAR, key(10), None, &supplies)
        .unwrap();
    r
}

fn config(digit_shift: i8, deposit_scaled_factor: u64, lockup_scaled_factor: u64) -> VotingMintConfig {
    VotingMintConfig {
        mint: key(10),
        grant_authority: Pubkey::zeroed(),
        deposit_scaled_factor,
        lockup_scaled_factor,
        lockup_saturation_secs: YEAR,
        digit_shift,
    }
}

fn voter() -> Voter {
    Voter::new(key(7), key(2), 0, 0)
}

fn periodic_entry(kind: LockupKind, periods: u32, amount: u64) -> DepositEntry {
    DepositEntry {
        lockup: Lockup::new_from_periods(kind, T0, periods).unwrap(),
        amount_deposited_native: amount,
        amount_initially_locked_native: amount,
        is_used: true,
        allow_clawback: false,
        voting_mint_config_idx: 0,
    }
}

#[test]
fn monthly_vesting_half_way() {
    let d = periodic_entry(LockupKind::Monthly, 12, 1200);
    let now = T0 + 6 * SECS_PER_MONTH as i64;
    assert_eq!(d.vested(now), 600);
    assert_eq!(d.amount_locked(now), 600);
}

#[test]
fn monthly_vesting_rounds_down_and_completes() {
    let d = periodic_entry(LockupKind::Monthly, 12, 1000);
    assert_eq!(d.vested(T0), 0);
    assert_eq!(d.vested(T0 - 5), 0);
    assert_eq!(d.vested(T0 + SECS_PER_MONTH as i64), 83);
    assert_eq!(d.vested(T0 + SECS_PER_MONTH as i64 - 1), 0);
    assert_eq!(d.vested(T0 + 12 * SECS_PER_MONTH as i64), 1000);
    assert_eq!(d.amount_locked(T0 + 13 * SECS_PER_MONTH as i64), 0);
}

#[test]
fn vested_never_decreases_over_time() {
    let d = periodic_entry(LockupKind::Daily, 7, 700);
    let mut last = 0;
    let mut t = T0 - 100;
    while t < T0 + 9 * SECS_PER_DAY as i64 {
        let v = d.vested(t);
        assert!(v >= last);
        assert!(v <= 700);
        assert_eq!(v + d.amount_locked(t), 700);
        last = v;
        t += 3600;
    }
}

#[test]
fn cliff_vests_all_at_end() {
    let d = periodic_entry(LockupKind::Cliff, 10, 500);
    let end = T0 + 10 * SECS_PER_DAY as i64;
    assert_eq!(d.vested(end - 1), 0);
    assert_eq!(d.vested(end), 500);
}

#[test]
fn no_lockup_is_vested_at_once() {
    let d = periodic_entry(LockupKind::NoLockup, 0, 300);
    assert_eq!(d.vested(0), 300);
    assert_eq!(d.amount_locked(0), 0);
}

#[test]
fn new_from_periods_errors() {
    assert_eq!(Lockup::new_from_periods(LockupKind::Daily, 0, 0), Err(ErrorCode::InvalidLockupPeriod));
    assert_eq!(
        Lockup::new_from_periods(LockupKind::Monthly, i64::MAX - 10, 1),
        Err(ErrorCode::ArithmeticOverflow)
    );
    let l = Lockup::new_from_periods(LockupKind::Daily, 5, 3).unwrap();
    assert_eq!(l.end_ts, 5 + 3 * 86400);
    assert_eq!(l.seconds_left(5), 3 * 86400);
    assert_eq!(l.seconds_left(10 * 86400), 0);
    assert!(LockupKind::Cliff.strictness() > LockupKind::Monthly.strictness());
    assert!(LockupKind::Daily.strictness() > LockupKind::NoLockup.strictness());
}

#[test]
fn baseline_weight_doubles() {
    let cfg = config(0, 2_000_000_000, 0);
    assert_eq!(cfg.baseline_vote_weight(1_000_000), Ok(2_000_000));
}

#[test]
fn digit_shift_scales_amounts() {
    assert_eq!(config(-3, 1_000_000_000, 0).baseline_vote_weight(12_345), Ok(12));
    assert_eq!(config(3, 1_000_000_000, 0).baseline_vote_weight(12), Ok(12_000));
    assert_eq!(config(2, 500_000_000, 0).baseline_vote_weight(3), Ok(150));
    assert_eq!(config(-100, 1_000_000_000, 0).baseline_vote_weight(u64::MAX), Ok(0));
    assert_eq!(config(0, 1_000_000_000, 3_000_000_000).max_extra_lockup_vote_weight(7), Ok(21));
}

#[test]
fn weight_overflow_is_an_error() {
    assert_eq!(
        config(1, 1_000_000_000, 0).baseline_vote_weight(u64::MAX),
        Err(ErrorCode::VoterWeightOverflow)
    );
    assert_eq!(
        config(0, 2_000_000_000, 0).baseline_vote_weight(u64::MAX),
        Err(ErrorCode::VoterWeightOverflow)
    );
    assert_eq!(config(100, 1_000_000_000, 0).baseline_vote_weight(0), Ok(0));
}

#[test]
fn voting_power_of_a_cliff_deposit() {
    let cfg = config(0, 1_000_000_000, 1_000_000_000);
    let d = periodic_entry(LockupKind::Cliff, 10, 1000);
    // 10 days left of a one-year saturation: 1000 * 864000 / 31536000 = 27.39
    assert_eq!(d.voting_power(&cfg, T0), Ok(1027));
    assert_eq!(d.voting_power(&cfg, T0 + 10 * SECS_PER_DAY as i64), Ok(1000));
}

#[test]
fn voting_power_saturates_and_decays() {
    let cfg = config(0, 1_000_000_000, 1_000_000_000);
    let d = periodic_entry(LockupKind::Cliff, 730, 1000);
    assert_eq!(d.voting_power(&cfg, T0), Ok(2000));
    let mut last = u64::MAX;
    let mut t = T0;
    while t < T0 + 800 * SECS_PER_DAY as i64 {
        let p = d.voting_power(&cfg, t).unwrap();
        assert!(p <= last);
        last = p;
        t += 10 * SECS_PER_DAY as i64;
    }
    assert_eq!(last, 1000);
}

#[test]
fn voting_power_locked_ramp() {
    let d = periodic_entry(LockupKind::Cliff, 10, 1000);
    assert_eq!(d.voting_power_locked(T0, 1000, 20 * SECS_PER_DAY), 500);
    assert_eq!(d.voting_power_locked(T0, 1000, 5 * SECS_PER_DAY), 1000);
    assert_eq!(d.voting_power_locked(T0, 1000, 0), 1000);
    assert_eq!(d.voting_power_locked(T0 + 10 * SECS_PER_DAY as i64, 1000, 5), 0);
}

#[test]
fn voter_weights() {
    let reg = registrar();
    let mut v = voter();
    let cliff = Lockup::new_from_periods(LockupKind::Cliff, T0, 10).unwrap();
    deposit(&reg, &mut v, 0, 0, cliff, false, 1000, T0).unwrap();
    let none = Lockup::new_from_periods(LockupKind::NoLockup, T0, 0).unwrap();
    deposit(&reg, &mut v, 3, 0, none, false, 500, T0).unwrap();
    assert_eq!(v.weight(&reg, T0), Ok(1527));
    assert_eq!(v.weight_baseline(&reg), Ok(1500));
    assert_eq!(v.weight_locked_guaranteed(&reg, T0, T0), Ok(27));
    assert_eq!(v.weight_locked_guaranteed(&reg, T0, T0 + 5 * SECS_PER_DAY as i64), Ok(13));
    assert_eq!(
        v.weight_locked_guaranteed(&reg, T0, T0 - 1),
        Err(ErrorCode::InvalidTimestampArguments)
    );
}

#[test]
fn voter_weight_sum_overflow() {
    let mut reg = Registrar::new(key(1), key(2), key(3), key(4), key(5), 0);
    let supplies = vec![MintSupply { mint: key(10), supply: 1 }];
    configure_voting_mint(&mut reg, 0, 0, 1_000_000_000, 0, YEAR, key(10), None, &supplies).unwrap();
    let mut v = voter();
    let none = Lockup::new_from_periods(LockupKind::NoLockup, T0, 0).unwrap();
    deposit(&reg, &mut v, 0, 0, none, false, u64::MAX, T0).unwrap();
    deposit(&reg, &mut v, 1, 0, none, false, 1, T0).unwrap();
    assert_eq!(v.weight(&reg, T0), Err(ErrorCode::VoterWeightOverflow));
    assert_eq!(v.weight_baseline(&reg), Err(ErrorCode::VoterWeightOverflow));
}

#[test]
fn deposit_checks() {
    let reg = registrar();
    let mut v = voter();
    let cliff = Lockup::new_from_periods(LockupKind::Cliff, T0, 10).unwrap();
    assert_eq!(deposit(&reg, &mut v, 32, 0, cliff, false, 1, T0), Err(ErrorCode::OutOfBoundsDepositEntryIndex));
    assert_eq!(deposit(&reg, &mut v, 0, 4, cliff, false, 1, T0), Err(ErrorCode::OutOfBoundsVotingMintConfigIndex));
    assert_eq!(deposit(&reg, &mut v, 0, 1, cliff, false, 1, T0), Err(ErrorCode::VotingMintNotFound));
    let bad = Lockup { start_ts: 10, end_ts: 5, kind: LockupKind::Cliff };
    assert_eq!(deposit(&reg, &mut v, 0, 0, bad, false, 1, T0), Err(ErrorCode::InvalidEndTs));
    deposit(&reg, &mut v, 0, 0, cliff, false, 100, T0).unwrap();
    let longer = Lockup::new_from_periods(LockupKind::Cliff, T0, 20).unwrap();
    assert_eq!(deposit(&reg, &mut v, 0, 0, longer, false, 1, T0), Err(ErrorCode::InvalidLockupPeriod));
    deposit(&reg, &mut v, 0, 0, cliff, false, 50, T0).unwrap();
    assert_eq!(v.deposits[0].amount_deposited_native, 150);
    assert_eq!(v.deposits[0].amount_initially_locked_native, 150);
    assert_eq!(
        deposit(&reg, &mut v, 0, 0, cliff, false, u64::MAX, T0),
        Err(ErrorCode::ArithmeticOverflow)
    );
}

#[test]
fn deposit_into_linear_lockup_relocks_vested_part() {
    let reg = registrar();
    let mut v = voter();
    let daily = Lockup::new_from_periods(LockupKind::Daily, T0, 10).unwrap();
    deposit(&reg, &mut v, 0, 0, daily, false, 1000, T0).unwrap();
    let now = T0 + 4 * SECS_PER_DAY as i64 + 5;
    assert_eq!(v.deposits[0].amount_locked(now), 600);
    deposit(&reg, &mut v, 0, 0, daily, false, 100, now).unwrap();
    let d = v.deposits[0];
    assert_eq!(d.amount_deposited_native, 1100);
    assert_eq!(d.amount_initially_locked_native, 700);
    assert_eq!(d.amount_locked(now), 700);
    assert_eq!(d.lockup.start_ts, T0 + 4 * SECS_PER_DAY as i64);
}

#[test]
fn withdraw_only_unlocked() {
    let reg = registrar();
    let mut v = voter();
    let daily = Lockup::new_from_periods(LockupKind::Daily, T0, 10).unwrap();
    deposit(&reg, &mut v, 0, 0, daily, false, 1000, T0).unwrap();
    let now = T0 + 3 * SECS_PER_DAY as i64;
    assert_eq!(withdraw(&mut v, 0, 301, now), Err(ErrorCode::InsufficientVestedTokens));
    withdraw(&mut v, 0, 300, now).unwrap();
    assert_eq!(v.deposits[0].amount_deposited_native, 700);
    assert_eq!(withdraw(&mut v, 1, 1, now), Err(ErrorCode::UnusedDepositEntryIndex));
    assert_eq!(withdraw(&mut v, 40, 1, now), Err(ErrorCode::OutOfBoundsDepositEntryIndex));
}

#[test]
fn reset_lockup_must_keep_tokens_locked() {
    let reg = registrar();
    let mut v = voter();
    let cliff = Lockup::new_from_periods(LockupKind::Cliff, T0, 10).unwrap();
    deposit(&reg, &mut v, 0, 0, cliff, false, 1000, T0).unwrap();
    let before = v.deposits;
    assert_eq!(
        reset_lockup(&mut v, 0, 0, LockupKind::Cliff, 20, 999, T0),
        Err(ErrorCode::MustKeepTokensLocked)
    );
    assert_eq!(v.deposits, before);
    reset_lockup(&mut v, 0, 0, LockupKind::Cliff, 20, 1000, T0).unwrap();
    assert_eq!(v.deposits[0].lockup.end_ts, T0 + 20 * SECS_PER_DAY as i64);
}

#[test]
fn reset_lockup_checks() {
    let reg = registrar();
    let mut v = voter();
    let cliff = Lockup::new_from_periods(LockupKind::Cliff, T0, 10).unwrap();
    deposit(&reg, &mut v, 0, 0, cliff, false, 1000, T0).unwrap();
    deposit(&reg, &mut v, 1, 0, cliff, true, 10, T0).unwrap();
    assert_eq!(reset_lockup(&mut v, 0, 0, LockupKind::Cliff, 9, 1000, T0), Err(ErrorCode::InvalidLockupPeriod));
    assert_eq!(reset_lockup(&mut v, 0, 0, LockupKind::Monthly, 12, 1000, T0), Err(ErrorCode::InvalidLockupKind));
    assert_eq!(reset_lockup(&mut v, 0, 0, LockupKind::Cliff, 10, 1001, T0), Err(ErrorCode::InsufficientDepositedTokens));
    assert_eq!(reset_lockup(&mut v, 1, 1, LockupKind::Cliff, 10, 10, T0), Err(ErrorCode::InvalidDays));
    assert_eq!(reset_lockup(&mut v, 0, 1, LockupKind::Cliff, 10, 10, T0), Err(ErrorCode::DepositEntryFull));
    assert_eq!(reset_lockup(&mut v, 0, 32, LockupKind::Cliff, 10, 10, T0), Err(ErrorCode::OutOfBoundsDepositEntryIndex));
    assert_eq!(reset_lockup(&mut v, 5, 5, LockupKind::Cliff, 10, 10, T0), Err(ErrorCode::UnusedDepositEntryIndex));
}

#[test]
fn reset_lockup_into_new_slot() {
    let reg = registrar();
    let mut v = voter();
    let cliff = Lockup::new_from_periods(LockupKind::Cliff, T0, 10).unwrap();
    deposit(&reg, &mut v, 0, 0, cliff, false, 1000, T0).unwrap();
    reset_lockup(&mut v, 0, 2, LockupKind::Cliff, 30, 400, T0).unwrap();
    assert_eq!(v.deposits[0].amount_deposited_native, 600);
    assert_eq!(v.deposits[0].amount_initially_locked_native, 600);
    let t = v.deposits[2];
    assert!(t.is_used);
    assert_eq!(t.amount_deposited_native, 400);
    assert_eq!(t.amount_initially_locked_native, 400);
    assert_eq!(t.lockup.end_ts, T0 + 30 * SECS_PER_DAY as i64);
    assert!(!t.allow_clawback);
}

#[test]
fn internal_transfer_into_shorter_lockup_fails() {
    let reg = registrar();
    let mut v = voter();
    let long = Lockup::new_from_periods(LockupKind::Cliff, T0, 20).unwrap();
    let short = Lockup::new_from_periods(LockupKind::Cliff, T0, 10).unwrap();
    deposit(&reg, &mut v, 0, 0, long, false, 1000, T0).unwrap();
    deposit(&reg, &mut v, 1, 0, short, false, 1000, T0).unwrap();
    let before = v.deposits;
    assert_eq!(internal_transfer(&mut v, 0, 1, 100, T0), Err(ErrorCode::InvalidLockupPeriod));
    assert_eq!(v.deposits, before);
}

#[test]
fn internal_transfer_moves_and_relocks() {
    let reg = registrar();
    let mut v = voter();
    let short = Lockup::new_from_periods(LockupKind::Cliff, T0, 10).unwrap();
    let long = Lockup::new_from_periods(LockupKind::Cliff, T0, 20).unwrap();
    deposit(&reg, &mut v, 0, 0, short, false, 1000, T0).unwrap();
    deposit(&reg, &mut v, 1, 0, long, false, 50, T0).unwrap();
    internal_transfer(&mut v, 0, 1, 100, T0).unwrap();
    assert_eq!(v.deposits[0].amount_deposited_native, 900);
    assert_eq!(v.deposits[0].amount_initially_locked_native, 900);
    assert_eq!(v.deposits[1].amount_deposited_native, 150);
    assert_eq!(v.deposits[1].amount_initially_locked_native, 150);
    assert_eq!(internal_transfer(&mut v, 0, 1, 901, T0), Err(ErrorCode::InsufficientDepositedTokens));
    assert_eq!(internal_transfer(&mut v, 0, 9, 1, T0), Err(ErrorCode::UnusedDepositEntryIndex));
}

#[test]
fn internal_transfer_refuses_laxer_or_other_mint() {
    let mut reg = registrar();
    let supplies = vec![
        MintSupply { mint: key(10), supply: 1_000_000 },
        MintSupply { mint: key(11), supply: 1_000_000 },
    ];
    configure_voting_mint(&mut reg, 1, 0, 1_000_000_000, 0, YEAR, key(11), None, &supplies).unwrap();
    let mut v = voter();
    let cliff = Lockup::new_from_periods(LockupKind::Cliff, T0, 10).unwrap();
    let monthly = Lockup::new_from_periods(LockupKind::Monthly, T0, 12).unwrap();
    deposit(&reg, &mut v, 0, 0, cliff, false, 100, T0).unwrap();
    deposit(&reg, &mut v, 1, 0, monthly, false, 100, T0).unwrap();
    deposit(&reg, &mut v, 2, 1, cliff, false, 100, T0).unwrap();
    deposit(&reg, &mut v, 3, 0, cliff, true, 100, T0).unwrap();
    assert_eq!(internal_transfer(&mut v, 0, 1, 10, T0), Err(ErrorCode::InvalidLockupKind));
    assert_eq!(internal_transfer(&mut v, 0, 2, 10, T0), Err(ErrorCode::InvalidMint));
    assert_eq!(internal_transfer(&mut v, 3, 0, 10, T0), Err(ErrorCode::InvalidDays));
}

#[test]
fn clawback_takes_unvested_once() {
    let reg = registrar();
    let mut v = voter();
    let daily = Lockup::new_from_periods(LockupKind::Daily, T0, 10).unwrap();
    deposit(&reg, &mut v, 0, 0, daily, true, 1000, T0).unwrap();
    let now = T0 + 4 * SECS_PER_DAY as i64;
    assert_eq!(clawback(&reg, &mut v, &key(4), 0, now), Err(ErrorCode::InvalidAuthority));
    assert_eq!(clawback(&reg, &mut v, &key(5), 0, now), Ok(600));
    let d = v.deposits[0];
    assert_eq!(d.amount_deposited_native, 400);
    assert_eq!(d.amount_initially_locked_native, 0);
    assert!(!d.allow_clawback);
    assert_eq!(d.lockup.kind, LockupKind::NoLockup);
    assert_eq!(d.lockup.start_ts, now);
    assert_eq!(d.lockup.end_ts, now);
    assert_eq!(clawback(&reg, &mut v, &key(5), 0, now + 1), Err(ErrorCode::ClawbackNotAllowedOnDeposit));
    assert_eq!(clawback(&reg, &mut v, &key(5), 1, now), Err(ErrorCode::DepositEntryIndexOutOfBounds));
    assert_eq!(clawback(&reg, &mut v, &key(5), 32, now), Err(ErrorCode::DepositEntryIndexOutOfBounds));
}

#[test]
fn clawback_sanity_check() {
    let reg = registrar();
    let mut v = voter();
    let mut d = periodic_entry(LockupKind::Cliff, 10, 1000);
    d.allow_clawback = true;
    d.amount_deposited_native = 10;
    v.deposits[0] = d;
    assert_eq!(clawback(&reg, &mut v, &key(5), 0, T0), Err(ErrorCode::InsufficientVestedTokens));
}

#[test]
fn close_deposit_entry_rules() {
    let reg = registrar();
    let mut v = voter();
    let cliff = Lockup::new_from_periods(LockupKind::Cliff, T0, 10).unwrap();
    deposit(&reg, &mut v, 0, 0, cliff, true, 0, T0).unwrap();
    deposit(&reg, &mut v, 1, 0, cliff, false, 5, T0).unwrap();
    let end = T0 + 10 * SECS_PER_DAY as i64;
    assert_eq!(close_deposit_entry(&mut v, 1, end + 1), Err(ErrorCode::VotingTokenNonZero));
    assert_eq!(close_deposit_entry(&mut v, 0, end - 1), Err(ErrorCode::DepositStillLocked));
    assert_eq!(close_deposit_entry(&mut v, 0, end), Err(ErrorCode::DepositStillLocked));
    close_deposit_entry(&mut v, 0, end + 1).unwrap();
    assert_eq!(v.deposits[0], DepositEntry::default());
    assert_eq!(close_deposit_entry(&mut v, 0, end + 1), Err(ErrorCode::DepositEntryIndexOutOfBounds));
    assert_eq!(close_deposit_entry(&mut v, 33, end + 1), Err(ErrorCode::DepositEntryIndexOutOfBounds));
}

#[test]
fn configure_voting_mint_rules() {
    let mut reg = registrar();
    let supplies = vec![MintSupply { mint: key(10), supply: 1_000_000 }];
    assert_eq!(
        configure_voting_mint(&mut reg, 1, 0, 0, 0, YEAR, key(11), None, &supplies),
        Err(ErrorCode::InvalidRate)
    );
    assert_eq!(
        configure_voting_mint(&mut reg, 4, 0, 1, 0, YEAR, key(11), None, &supplies),
        Err(ErrorCode::OutOfBoundsVotingMintConfigIndex)
    );
    assert_eq!(
        configure_voting_mint(&mut reg, 0, 0, 1, 0, YEAR, key(11), None, &supplies),
        Err(ErrorCode::VotingMintConfigIndexAlreadyInUse)
    );
    assert_eq!(
        configure_voting_mint(&mut reg, 1, 0, 1, 0, YEAR, key(11), None, &supplies),
        Err(ErrorCode::VotingMintNotFound)
    );
    let big = vec![
        MintSupply { mint: key(10), supply: 1_000_000 },
        MintSupply { mint: key(11), supply: u64::MAX },
    ];
    assert_eq!(
        configure_voting_mint(&mut reg, 1, 0, 1_000_000_000, 0, YEAR, key(11), None, &big),
        Err(ErrorCode::VoterWeightOverflow)
    );
    assert!(!reg.voting_mints[1].in_use());
    configure_voting_mint(&mut reg, 1, 0, 1_000_000_000, 0, YEAR, key(11), Some(key(9)), &big[..1].to_vec())
        .unwrap_err();
    let ok = vec![
        MintSupply { mint: key(10), supply: 1_000_000 },
        MintSupply { mint: key(11), supply: 5 },
    ];
    configure_voting_mint(&mut reg, 1, 0, 1_000_000_000, 0, YEAR, key(11), Some(key(9)), &ok).unwrap();
    assert!(reg.voting_mints[1].in_use());
    assert_eq!(reg.voting_mints[1].grant_authority, key(9));
    assert_eq!(reg.max_vote_weight(&ok), Ok(2_000_005));
}

#[test]
fn close_voter_needs_empty_deposits_and_vaults() {
    let reg = registrar();
    let mut v = voter();
    let none = Lockup::new_from_periods(LockupKind::NoLockup, T0, 0).unwrap();
    deposit(&reg, &mut v, 0, 0, none, false, 5, T0).unwrap();
    let vaults = vec![TokenBalance { owner: key(7), mint: key(10), amount: 0 }];
    assert_eq!(close_voter(&mut v, &key(7), &vaults), Err(ErrorCode::VotingTokenNonZero));
    withdraw(&mut v, 0, 5, T0).unwrap();
    let foreign = vec![TokenBalance { owner: key(8), mint: key(10), amount: 0 }];
    assert_eq!(close_voter(&mut v, &key(7), &foreign), Err(ErrorCode::InvalidAuthority));
    let full = vec![TokenBalance { owner: key(7), mint: key(10), amount: 1 }];
    assert_eq!(close_voter(&mut v, &key(7), &full), Err(ErrorCode::VaultTokenNonZero));
    close_voter(&mut v, &key(7), &vaults).unwrap();
    assert_eq!(v.voter_authority, Pubkey::zeroed());
    assert_eq!(v.registrar, Pubkey::zeroed());
    assert!(v.deposits.iter().all(|d| *d == DepositEntry::default()));
}

#[test]
fn close_voter_v2_needs_nothing_locked() {
    let reg = registrar();
    let mut v = voter();
    let cliff = Lockup::new_from_periods(LockupKind::Cliff, T0, 10).unwrap();
    deposit(&reg, &mut v, 0, 0, cliff, false, 100, T0).unwrap();
    deposit(&reg, &mut v, 4, 0, cliff, false, 200, T0).unwrap();
    let vaults = vec![
        TokenBalance { owner: key(7), mint: key(10), amount: 100 },
        TokenBalance { owner: key(7), mint: key(10), amount: 200 },
    ];
    assert_eq!(close_voter_v2(&reg, &mut v, &key(7), &vaults, 3, T0), Err(ErrorCode::InvalidAccountCount));
    assert_eq!(close_voter_v2(&reg, &mut v, &key(7), &vaults, 4, T0), Err(ErrorCode::DepositStillLocked));
    let end = T0 + 10 * SECS_PER_DAY as i64;
    let wrong_mint = vec![
        TokenBalance { owner: key(7), mint: key(10), amount: 100 },
        TokenBalance { owner: key(7), mint: key(12), amount: 200 },
    ];
    assert_eq!(close_voter_v2(&reg, &mut v, &key(7), &wrong_mint, 4, end), Err(ErrorCode::InvalidMint));
    assert_eq!(close_voter_v2(&reg, &mut v, &key(8), &vaults, 4, end), Err(ErrorCode::InvalidAuthority));
    assert_eq!(close_voter_v2(&reg, &mut v, &key(7), &vaults, 4, end), Ok(vec![100, 200]));
    assert!(v.deposits.iter().all(|d| !d.is_used));
}

#[test]
fn active_deposit_mut_gives_used_slots() {
    let reg = registrar();
    let mut v = voter();
    let none = Lockup::new_from_periods(LockupKind::NoLockup, T0, 0).unwrap();
    deposit(&reg, &mut v, 2, 0, none, false, 5, T0).unwrap();
    assert_eq!(v.active_deposit_mut(32).unwrap_err(), ErrorCode::OutOfBoundsDepositEntryIndex);
    assert_eq!(v.active_deposit_mut(1).unwrap_err(), ErrorCode::UnusedDepositEntryIndex);
    v.active_deposit_mut(2).unwrap().amount_deposited_native = 9;
    assert_eq!(v.deposits[2].amount_deposited_native, 9);
}

#[test]
fn registrar_clock_offset() {
    let mut reg = registrar();
    reg.time_offset = 60;
    assert_eq!(reg.clock_unix_timestamp(100), 160);
}

#[test]
fn pubkey_bytes_round_trip() {
    let mut bytes = [0u8; 32];
    for (i, b) in bytes.iter_mut().enumerate() {
        *b = (i as u8) * 7 + 1;
    }
    let k = Pubkey::new_from_array(bytes);
    assert_eq!(k.to_bytes(), bytes.to_vec());
    assert_eq!(k.w0, u64::from_le_bytes([1, 8, 15, 22, 29, 36, 43, 50]));
    assert_ne!(k, Pubkey::zeroed());
}

#[test]
fn signing_seeds() {
    let mut v = voter();
    v.voter_bump = 254;
    let seeds = v.voter_seeds();
    assert_eq!(seeds.len(), 4);
    assert_eq!(seeds[0], key(2).to_bytes());
    assert_eq!(seeds[1], b"voter".to_vec());
    assert_eq!(seeds[2], key(7).to_bytes());
    assert_eq!(seeds[3], vec![254]);
    assert_eq!(seeds[2][0], 7);
}

#[test]
fn token_owner_record_must_match() {
    let reg = registrar();
    let v = voter();
    let good = TokenOwnerRecord { realm: key(2), governing_token_mint: key(3), governing_token_owner: key(7) };
    assert_eq!(v.load_token_owner_record(&good, &reg), Ok(good));
    let other_owner = TokenOwnerRecord { governing_token_owner: key(8), ..good };
    assert_eq!(v.load_token_owner_record(&other_owner, &reg), Err(ErrorCode::InvalidTokenOwnerRecord));
    let other_realm = TokenOwnerRecord { realm: key(9), ..good };
    assert_eq!(v.load_token_owner_record(&other_realm, &reg), Err(ErrorCode::InvalidTokenOwnerRecord));
}

#[test]
fn voter_weight_decays_over_time() {
    let reg = registrar();
    let mut v = voter();
    let monthly = Lockup::new_from_periods(LockupKind::Monthly, T0, 24).unwrap();
    deposit(&reg, &mut v, 0, 0, monthly, false, 2400, T0).unwrap();
    let cliff = Lockup::new_from_periods(LockupKind::Cliff, T0, 100).unwrap();
    deposit(&reg, &mut v, 1, 0, cliff, false, 500, T0).unwrap();
    let mut last = v.weight(&reg, T0).unwrap();
    assert_eq!(last, 2400 + 2400 + 500 + 500 * 100 * 86400 / (YEAR as u64));
    let mut t = T0;
    while t < T0 + 26 * SECS_PER_MONTH as i64 {
        let w = v.weight(&reg, t).unwrap();
        assert!(w <= last);
        last = w;
        t += SECS_PER_DAY as i64 * 5;
    }
    assert_eq!(last, 2900);
}
