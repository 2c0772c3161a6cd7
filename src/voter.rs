use vstd::prelude::*;

use crate::deposit_entry::{lemma_voting_power_monotone, DepositEntry};
use crate::error::ErrorCode;
use crate::pubkey::Pubkey;
use crate::registrar::{Registrar, MAX_VOTING_MINTS};
use crate::voting_mint_config::VotingMintConfig;

verus! {

/// Number of deposit slots of a voter.
pub const MAX_DEPOSITS: usize = 32;

/// The sum of `f` over the used deposits among the first `n`; `None` where
/// `f` is `None` on one of them or a partial sum leaves the `u64` range.
pub open spec fn sum_used_upto(
    deposits: Seq<DepositEntry>,
    f: spec_fn(DepositEntry) -> Option<nat>,
    n: nat,
) -> Option<nat>
    decreases n,
{
    if n == 0 {
        Some(0)
    } else {
        match sum_used_upto(deposits, f, (n - 1) as nat) {
            None => None,
            Some(sum) => {
                let d = deposits[n - 1];
                if !d.is_used {
                    Some(sum)
                } else {
                    match f(d) {
                        None => None,
                        Some(p) => if sum + p > u64::MAX {
                            None
                        } else {
                            Some(sum + p)
                        },
                    }
                }
            },
        }
    }
}

/// Once a prefix fails, every longer prefix fails.
pub proof fn lemma_sum_used_none_stays(
    deposits: Seq<DepositEntry>,
    f: spec_fn(DepositEntry) -> Option<nat>,
    k: nat,
    n: nat,
)
    requires
        k <= n,
        sum_used_upto(deposits, f, k) is None,
    ensures
        sum_used_upto(deposits, f, n) is None,
    decreases n - k,
{
    if k < n {
        lemma_sum_used_none_stays(deposits, f, k, (n - 1) as nat);
    }
}

/// Voting power of a deposit under the registrar's mints.
pub open spec fn power_of(mints: Seq<VotingMintConfig>, now: i64) -> spec_fn(DepositEntry) -> Option<nat> {
    |d: DepositEntry| d.spec_voting_power(mints[d.voting_mint_config_idx as int], now)
}

/// Baseline weight of a deposit under the registrar's mints.
pub open spec fn baseline_of(mints: Seq<VotingMintConfig>) -> spec_fn(DepositEntry) -> Option<nat> {
    |d: DepositEntry|
        mints[d.voting_mint_config_idx as int].spec_baseline_vote_weight(
            d.amount_deposited_native as nat,
        )
}

/// Lockup bonus of a deposit at `at_ts` under the registrar's mints.
pub open spec fn locked_power_of(mints: Seq<VotingMintConfig>, at_ts: i64) -> spec_fn(DepositEntry) -> Option<nat> {
    |d: DepositEntry| d.spec_voting_power_locked(mints[d.voting_mint_config_idx as int], at_ts)
}

/// What the governance program records of a token owner in a realm.
#[derive(Clone, Copy, Debug, PartialEq, Eq, Structural)]
pub struct TokenOwnerRecord {
    pub realm: Pubkey,
    pub governing_token_mint: Pubkey,
    pub governing_token_owner: Pubkey,
}

/// Without an operation on the voter, its full weight never grows with
/// time, and stays representable once it is.
pub proof fn lemma_weight_monotone(
    deposits: Seq<DepositEntry>,
    mints: Seq<VotingMintConfig>,
    t1: i64,
    t2: i64,
    n: nat,
)
    requires
        t1 <= t2,
    ensures
        sum_used_upto(deposits, power_of(mints, t1), n) is Some ==> sum_used_upto(
            deposits,
            power_of(mints, t2),
            n,
        ) is Some && sum_used_upto(deposits, power_of(mints, t2), n)->Some_0 <= sum_used_upto(
            deposits,
            power_of(mints, t1),
            n,
        )->Some_0,
    decreases n,
{
    if n > 0 {
        lemma_weight_monotone(deposits, mints, t1, t2, (n - 1) as nat);
        let d = deposits[n - 1];
        lemma_voting_power_monotone(d, mints[d.voting_mint_config_idx as int], t1, t2);
    }
}

/// One user's deposits under one registrar.
#[derive(Clone, Copy, Debug)]
pub struct Voter {
    pub voter_authority: Pubkey,
    pub registrar: Pubkey,
    pub deposits: [DepositEntry; 32],
    pub voter_bump: u8,
    pub voter_weight_record_bump: u8,
}

impl Voter {
    /// Every slot is well formed and a used one names an existing mint slot.
    pub open spec fn wf(self) -> bool {
        forall|i: int|
            0 <= i < MAX_DEPOSITS ==> {
                &&& (#[trigger] self.deposits@[i]).wf()
                &&& self.deposits@[i].is_used ==> self.deposits@[i].voting_mint_config_idx
                    < MAX_VOTING_MINTS
            }
    }

    /// Whether the record is well formed; a record that only the ledger
    /// operations wrote always is.
    pub fn check_wf(&self) -> (r: bool)
        ensures
            r == self.wf(),
    {
        let unused = DepositEntry::default();
        let mut i: usize = 0;
        while i < MAX_DEPOSITS
            invariant
                i <= MAX_DEPOSITS,
                unused == DepositEntry::spec_unused(),
                forall|j: int|
                    0 <= j < i ==> {
                        &&& (#[trigger] self.deposits@[j]).wf()
                        &&& self.deposits@[j].is_used ==> self.deposits@[j].voting_mint_config_idx
                            < MAX_VOTING_MINTS
                    },
            decreases MAX_DEPOSITS - i,
        {
            let d = self.deposits[i];
            if d.lockup.start_ts > d.lockup.end_ts {
                return false;
            }
            if d.is_used && d.voting_mint_config_idx as usize >= MAX_VOTING_MINTS {
                return false;
            }
            if !d.is_used && d != unused {
                return false;
            }
            i = i + 1;
        }
        true
    }

    /// The record with every byte zero: no authority, no registrar and
    /// every slot unused.
    pub open spec fn spec_zeroed(self) -> bool {
        &&& self.voter_authority.is_zero()
        &&& self.registrar.is_zero()
        &&& self.voter_bump == 0
        &&& self.voter_weight_record_bump == 0
        &&& forall|i: int|
            0 <= i < MAX_DEPOSITS ==> #[trigger] self.deposits@[i] == DepositEntry::spec_unused()
    }

    /// A voter with every slot unused.
    pub fn new(
        voter_authority: Pubkey,
        registrar: Pubkey,
        voter_bump: u8,
        voter_weight_record_bump: u8,
    ) -> (r: Voter)
        ensures
            r.wf(),
            r.voter_authority == voter_authority,
            r.registrar == registrar,
            r.voter_bump == voter_bump,
            r.voter_weight_record_bump == voter_weight_record_bump,
            forall|i: int|
                0 <= i < MAX_DEPOSITS ==> #[trigger] r.deposits@[i] == DepositEntry::spec_unused(),
    {
        let unused = DepositEntry::default();
        Voter { voter_authority, registrar, deposits: [unused; 32], voter_bump, voter_weight_record_bump }
    }

    /// The all-zero record.
    pub fn zeroed() -> (r: Voter)
        ensures
            r.wf(),
            r.spec_zeroed(),
    {
        let unused = DepositEntry::default();
        Voter {
            voter_authority: Pubkey::zeroed(),
            registrar: Pubkey::zeroed(),
            deposits: [unused; 32],
            voter_bump: 0,
            voter_weight_record_bump: 0,
        }
    }

    /// The full vote weight of the voter at `curr_ts`.
    pub fn weight(&self, registrar: &Registrar, curr_ts: i64) -> (r: Result<u64, ErrorCode>)
        requires
            self.wf(),
        ensures
            r is Ok <==> sum_used_upto(self.deposits@, power_of(registrar.voting_mints@, curr_ts), 32) is Some,
            r is Ok ==> r->Ok_0 == sum_used_upto(
                self.deposits@,
                power_of(registrar.voting_mints@, curr_ts),
                32,
            )->Some_0,
            r is Err ==> r->Err_0 == ErrorCode::VoterWeightOverflow,
    {
        let ghost f = power_of(registrar.voting_mints@, curr_ts);
        let mut sum: u64 = 0;
        let mut i: usize = 0;
        while i < MAX_DEPOSITS
            invariant
                i <= MAX_DEPOSITS,
                self.wf(),
                f == power_of(registrar.voting_mints@, curr_ts),
                sum_used_upto(self.deposits@, f, i as nat) == Some(sum as nat),
            decreases MAX_DEPOSITS - i,
        {
            let d = self.deposits[i];
            if d.is_used {
                let cfg = registrar.voting_mints[d.voting_mint_config_idx as usize];
                let step = match d.voting_power(&cfg, curr_ts) {
                    Ok(p) => sum.checked_add(p),
                    Err(_) => None,
                };
                match step {
                    Some(s) => {
                        sum = s;
                    },
                    None => {
                        proof {
                            lemma_sum_used_none_stays(self.deposits@, f, (i + 1) as nat, 32);
                        }
                        return Err(ErrorCode::VoterWeightOverflow);
                    },
                }
            }
            i = i + 1;
        }
        Ok(sum)
    }

    /// The vote weight of the voter's deposits without any lockup bonus.
    pub fn weight_baseline(&self, registrar: &Registrar) -> (r: Result<u64, ErrorCode>)
        requires
            self.wf(),
        ensures
            r is Ok <==> sum_used_upto(self.deposits@, baseline_of(registrar.voting_mints@), 32) is Some,
            r is Ok ==> r->Ok_0 == sum_used_upto(
                self.deposits@,
                baseline_of(registrar.voting_mints@),
                32,
            )->Some_0,
            r is Err ==> r->Err_0 == ErrorCode::VoterWeightOverflow,
    {
        let ghost f = baseline_of(registrar.voting_mints@);
        let mut sum: u64 = 0;
        let mut i: usize = 0;
        while i < MAX_DEPOSITS
            invariant
                i <= MAX_DEPOSITS,
                self.wf(),
                f == baseline_of(registrar.voting_mints@),
                sum_used_upto(self.deposits@, f, i as nat) == Some(sum as nat),
            decreases MAX_DEPOSITS - i,
        {
            let d = self.deposits[i];
            if d.is_used {
                let cfg = registrar.voting_mints[d.voting_mint_config_idx as usize];
                let step = match cfg.baseline_vote_weight(d.amount_deposited_native) {
                    Ok(p) => sum.checked_add(p),
                    Err(_) => None,
                };
                match step {
                    Some(s) => {
                        sum = s;
                    },
                    None => {
                        proof {
                            lemma_sum_used_none_stays(self.deposits@, f, (i + 1) as nat, 32);
                        }
                        return Err(ErrorCode::VoterWeightOverflow);
                    },
                }
            }
            i = i + 1;
        }
        Ok(sum)
    }

    /// The lockup bonus that the voter is sure to still have at `at_ts`
    /// however much is withdrawn from `curr_ts` on: only tokens still
    /// locked at `at_ts` count, for the lockup time left then.
    pub fn weight_locked_guaranteed(&self, registrar: &Registrar, curr_ts: i64, at_ts: i64) -> (r:
        Result<u64, ErrorCode>)
        requires
            self.wf(),
        ensures
            at_ts < curr_ts ==> r is Err && r->Err_0 == ErrorCode::InvalidTimestampArguments,
            at_ts >= curr_ts ==> (r is Ok <==> sum_used_upto(
                self.deposits@,
                locked_power_of(registrar.voting_mints@, at_ts),
                32,
            ) is Some),
            r is Ok ==> r->Ok_0 == sum_used_upto(
                self.deposits@,
                locked_power_of(registrar.voting_mints@, at_ts),
                32,
            )->Some_0,
            (r is Err && at_ts >= curr_ts) ==> r->Err_0 == ErrorCode::VoterWeightOverflow,
    {
        if at_ts < curr_ts {
            return Err(ErrorCode::InvalidTimestampArguments);
        }
        let ghost f = locked_power_of(registrar.voting_mints@, at_ts);
        let mut sum: u64 = 0;
        let mut i: usize = 0;
        while i < MAX_DEPOSITS
            invariant
                i <= MAX_DEPOSITS,
                self.wf(),
                at_ts >= curr_ts,
                f == locked_power_of(registrar.voting_mints@, at_ts),
                sum_used_upto(self.deposits@, f, i as nat) == Some(sum as nat),
            decreases MAX_DEPOSITS - i,
        {
            let d = self.deposits[i];
            if d.is_used {
                let cfg = registrar.voting_mints[d.voting_mint_config_idx as usize];
                let locked = d.amount_locked(at_ts);
                let step = match cfg.max_extra_lockup_vote_weight(locked) {
                    Ok(m) => sum.checked_add(
                        d.voting_power_locked(at_ts, m, cfg.lockup_saturation_secs),
                    ),
                    Err(_) => None,
                };
                match step {
                    Some(s) => {
                        sum = s;
                    },
                    None => {
                        proof {
                            lemma_sum_used_none_stays(self.deposits@, f, (i + 1) as nat, 32);
                        }
                        return Err(ErrorCode::VoterWeightOverflow);
                    },
                }
            }
            i = i + 1;
        }
        Ok(sum)
    }

    /// The used deposit slot at `index`.
    pub fn active_deposit_mut(&mut self, index: u8) -> (r: Result<&mut DepositEntry, ErrorCode>)
        ensures
            (index as usize) >= MAX_DEPOSITS ==> r is Err && r->Err_0
                == ErrorCode::OutOfBoundsDepositEntryIndex,
            (index as usize) < MAX_DEPOSITS && !old(self).deposits@[index as int].is_used ==> r is Err
                && r->Err_0 == ErrorCode::UnusedDepositEntryIndex,
            r is Err ==> *final(self) == *old(self),
            r is Ok ==> (index as usize) < MAX_DEPOSITS && old(self).deposits@[index as int].is_used,
            r is Ok ==> *r->Ok_0 == old(self).deposits@[index as int],
            r is Ok ==> final(self).deposits@ == old(self).deposits@.update(index as int, *final(r->Ok_0)),
    {
        let i = index as usize;
        if i >= MAX_DEPOSITS {
            return Err(ErrorCode::OutOfBoundsDepositEntryIndex);
        }
        if !self.deposits[i].is_used {
            return Err(ErrorCode::UnusedDepositEntryIndex);
        }
        Ok(&mut self.deposits[i])
    }

    /// Accepts the token-owner record read for this voter only where it is
    /// the record of the registrar's realm and governing mint and belongs
    /// to the voter's authority.
    pub fn load_token_owner_record(&self, record: &TokenOwnerRecord, registrar: &Registrar) -> (r:
        Result<TokenOwnerRecord, ErrorCode>)
        ensures
            r is Ok <==> record.realm == registrar.realm && record.governing_token_mint
                == registrar.realm_governing_token_mint && record.governing_token_owner
                == self.voter_authority,
            r is Ok ==> r->Ok_0 == *record,
            r is Err ==> r->Err_0 == ErrorCode::InvalidTokenOwnerRecord,
    {
        if record.realm != registrar.realm || record.governing_token_mint
            != registrar.realm_governing_token_mint {
            return Err(ErrorCode::InvalidTokenOwnerRecord);
        }
        if record.governing_token_owner != self.voter_authority {
            return Err(ErrorCode::InvalidTokenOwnerRecord);
        }
        Ok(*record)
    }

    /// The seeds that derive the voter's own signing address: the
    /// registrar, the word "voter", the voter's authority and the bump.
    pub fn voter_seeds(&self) -> (r: Vec<Vec<u8>>)
        ensures
            r@.len() == 4,
            r@[0]@ == self.registrar.spec_bytes(),
            r@[1]@ == seq![118u8, 111u8, 116u8, 101u8, 114u8],
            r@[2]@ == self.voter_authority.spec_bytes(),
            r@[3]@ == seq![self.voter_bump],
    {
        let mut r: Vec<Vec<u8>> = Vec::new();
        r.push(self.registrar.to_bytes());
        r.push(vec![118u8, 111u8, 116u8, 101u8, 114u8]);
        r.push(self.voter_authority.to_bytes());
        r.push(vec![self.voter_bump]);
        assert(r@[1]@ =~= seq![118u8, 111u8, 116u8, 101u8, 114u8]);
        assert(r@[3]@ =~= seq![self.voter_bump]);
        r
    }
}

} // verus!
