use vstd::prelude::*;

use crate::error::ErrorCode;
use crate::pubkey::Pubkey;
use crate::voting_mint_config::VotingMintConfig;

verus! {

/// Number of voting-mint slots of a registrar.
pub const MAX_VOTING_MINTS: usize = 4;

/// The supply of one mint, as read from its account.
#[derive(Clone, Copy, Debug, PartialEq, Eq, Structural)]
pub struct MintSupply {
    pub mint: Pubkey,
    pub supply: u64,
}

/// The supply of the first entry at or after `i` that names `mint`.
pub open spec fn supply_from(supplies: Seq<MintSupply>, mint: Pubkey, i: int) -> Option<u64>
    decreases supplies.len() - i,
{
    if i < 0 || i >= supplies.len() {
        None
    } else if supplies[i].mint == mint {
        Some(supplies[i].supply)
    } else {
        supply_from(supplies, mint, i + 1)
    }
}

/// The largest vote weight that the first `n` voting mints could give if
/// their whole supply were deposited and fully locked; an error where a
/// configured mint has no supply or a partial sum leaves the `u64` range.
pub open spec fn max_vote_weight_upto(
    mints: Seq<VotingMintConfig>,
    supplies: Seq<MintSupply>,
    n: nat,
) -> Result<nat, ErrorCode>
    decreases n,
{
    if n == 0 {
        Ok(0)
    } else {
        match max_vote_weight_upto(mints, supplies, (n - 1) as nat) {
            Err(e) => Err(e),
            Ok(sum) => {
                let c = mints[n - 1];
                if !c.spec_in_use() {
                    Ok(sum)
                } else {
                    match supply_from(supplies, c.mint, 0) {
                        None => Err(ErrorCode::VotingMintNotFound),
                        Some(supply) => {
                            let b = c.spec_baseline_vote_weight(supply as nat);
                            let m = c.spec_max_extra_lockup_vote_weight(supply as nat);
                            if b is None || sum + b->Some_0 > u64::MAX {
                                Err(ErrorCode::VoterWeightOverflow)
                            } else if m is None || sum + b->Some_0 + m->Some_0 > u64::MAX {
                                Err(ErrorCode::VoterWeightOverflow)
                            } else {
                                Ok(sum + b->Some_0 + m->Some_0)
                            }
                        },
                    }
                }
            },
        }
    }
}

/// One governance community's registry: its identities, its authorities
/// and the voting mints that give vote weight.
#[derive(Clone, Copy, Debug)]
pub struct Registrar {
    pub governance_program_id: Pubkey,
    pub realm: Pubkey,
    pub realm_governing_token_mint: Pubkey,
    pub realm_authority: Pubkey,
    pub clawback_authority: Pubkey,
    pub voting_mints: [VotingMintConfig; 4],
    /// Added to the clock's time; only for tests and simulations.
    pub time_offset: i64,
    pub bump: u8,
}

impl Registrar {
    /// A registrar with no voting mint configured.
    pub fn new(
        governance_program_id: Pubkey,
        realm: Pubkey,
        realm_governing_token_mint: Pubkey,
        realm_authority: Pubkey,
        clawback_authority: Pubkey,
        bump: u8,
    ) -> (r: Registrar)
        ensures
            r.governance_program_id == governance_program_id,
            r.realm == realm,
            r.realm_governing_token_mint == realm_governing_token_mint,
            r.realm_authority == realm_authority,
            r.clawback_authority == clawback_authority,
            r.time_offset == 0,
            r.bump == bump,
            forall|i: int| 0 <= i < MAX_VOTING_MINTS ==> !(#[trigger] r.voting_mints@[i]).spec_in_use(),
    {
        let unused = VotingMintConfig::unused();
        Registrar {
            governance_program_id,
            realm,
            realm_governing_token_mint,
            realm_authority,
            clawback_authority,
            voting_mints: [unused; 4],
            time_offset: 0,
            bump,
        }
    }

    /// The registrar's time: the clock's time plus the offset.
    pub fn clock_unix_timestamp(&self, unix_timestamp: i64) -> (r: i64)
        requires
            i64::MIN <= unix_timestamp + self.time_offset <= i64::MAX,
        ensures
            r == unix_timestamp + self.time_offset,
    {
        unix_timestamp + self.time_offset
    }

    /// The largest vote weight that all configured mints together could
    /// give, from their supplies; fails where that could overflow.
    pub fn max_vote_weight(&self, mint_supplies: &Vec<MintSupply>) -> (r: Result<u64, ErrorCode>)
        ensures
            r is Ok <==> max_vote_weight_upto(self.voting_mints@, mint_supplies@, 4) is Ok,
            r is Ok ==> r->Ok_0 == max_vote_weight_upto(
                self.voting_mints@,
                mint_supplies@,
                4,
            )->Ok_0,
            r is Err ==> r->Err_0 == max_vote_weight_upto(
                self.voting_mints@,
                mint_supplies@,
                4,
            )->Err_0,
    {
        let mut sum: u64 = 0;
        let mut i: usize = 0;
        while i < MAX_VOTING_MINTS
            invariant
                i <= MAX_VOTING_MINTS,
                max_vote_weight_upto(self.voting_mints@, mint_supplies@, i as nat) == Ok::<
                    nat,
                    ErrorCode,
                >(sum as nat),
            decreases MAX_VOTING_MINTS - i,
        {
            let c = self.voting_mints[i];
            if c.in_use() {
                let step = add_mint_weight(&c, mint_supplies, sum);
                match step {
                    Ok(s) => {
                        sum = s;
                    },
                    Err(e) => {
                        proof {
                            lemma_max_vote_weight_err_stays(
                                self.voting_mints@,
                                mint_supplies@,
                                (i + 1) as nat,
                                4,
                            );
                        }
                        return Err(e);
                    },
                }
            }
            i = i + 1;
        }
        Ok(sum)
    }
}

/// Adds the largest weight that configured mint `c` could give to `sum`.
fn add_mint_weight(c: &VotingMintConfig, mint_supplies: &Vec<MintSupply>, sum: u64) -> (r: Result<
    u64,
    ErrorCode,
>)
    requires
        c.spec_in_use(),
    ensures
        ({
            let supply = supply_from(mint_supplies@, c.mint, 0);
            let b = c.spec_baseline_vote_weight(supply->Some_0 as nat);
            let m = c.spec_max_extra_lockup_vote_weight(supply->Some_0 as nat);
            if supply is None {
                r == Err::<u64, ErrorCode>(ErrorCode::VotingMintNotFound)
            } else if b is None || sum + b->Some_0 > u64::MAX {
                r == Err::<u64, ErrorCode>(ErrorCode::VoterWeightOverflow)
            } else if m is None || sum + b->Some_0 + m->Some_0 > u64::MAX {
                r == Err::<u64, ErrorCode>(ErrorCode::VoterWeightOverflow)
            } else {
                r is Ok && r->Ok_0 == sum + b->Some_0 + m->Some_0
            }
        }),
{
    let supply = find_supply(mint_supplies, &c.mint)?;
    let b = c.baseline_vote_weight(supply)?;
    let s1 = match sum.checked_add(b) {
        Some(s) => s,
        None => return Err(ErrorCode::VoterWeightOverflow),
    };
    let m = c.max_extra_lockup_vote_weight(supply)?;
    match s1.checked_add(m) {
        Some(s) => Ok(s),
        None => Err(ErrorCode::VoterWeightOverflow),
    }
}

/// Once a prefix of the slots fails, every longer prefix fails the same way.
proof fn lemma_max_vote_weight_err_stays(
    mints: Seq<VotingMintConfig>,
    supplies: Seq<MintSupply>,
    k: nat,
    n: nat,
)
    requires
        k <= n,
        max_vote_weight_upto(mints, supplies, k) is Err,
    ensures
        max_vote_weight_upto(mints, supplies, n) == max_vote_weight_upto(mints, supplies, k),
    decreases n - k,
{
    if k < n {
        lemma_max_vote_weight_err_stays(mints, supplies, k, (n - 1) as nat);
    }
}

/// The supply of the first entry that names `mint`.
pub fn find_supply(mint_supplies: &Vec<MintSupply>, mint: &Pubkey) -> (r: Result<u64, ErrorCode>)
    ensures
        r is Ok <==> supply_from(mint_supplies@, *mint, 0) is Some,
        r is Ok ==> r->Ok_0 == supply_from(mint_supplies@, *mint, 0)->Some_0,
        r is Err ==> r->Err_0 == ErrorCode::VotingMintNotFound,
{
    let mut i: usize = 0;
    while i < mint_supplies.len()
        invariant
            i <= mint_supplies.len(),
            supply_from(mint_supplies@, *mint, 0) == supply_from(mint_supplies@, *mint, i as int),
        decreases mint_supplies.len() - i,
    {
        if mint_supplies[i].mint == *mint {
            return Ok(mint_supplies[i].supply);
        }
        i = i + 1;
    }
    Err(ErrorCode::VotingMintNotFound)
}

} // verus!
