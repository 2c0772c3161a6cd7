use vstd::prelude::*;
use vstd::arithmetic::div_mod::lemma_div_denominator;

use crate::error::ErrorCode;
use crate::pubkey::Pubkey;

verus! {

/// Denominator of the fixed-point scaled factors.
pub const SCALED_FACTOR_BASE: u64 = 1_000_000_000;

pub open spec fn pow10(n: nat) -> nat
    decreases n,
{
    if n == 0 {
        1
    } else {
        10 * pow10((n - 1) as nat)
    }
}

/// `amount` moved by `shift` decimal digits, rounded down.
pub open spec fn shifted(shift: i8, amount: nat) -> nat {
    if shift < 0 {
        amount / pow10((-shift) as nat)
    } else {
        amount * pow10(shift as nat)
    }
}

/// `base * factor / 1e9`, rounded down.
pub open spec fn scaled(base: nat, factor: u64) -> nat {
    (base * (factor as nat)) / (SCALED_FACTOR_BASE as nat)
}

/// The weight that `factor` gives to `amount` native tokens after the digit
/// shift, when every step fits in a `u64`.
pub open spec fn scaled_weight(shift: i8, factor: u64, amount: nat) -> Option<nat> {
    if shifted(shift, amount) > u64::MAX {
        None
    } else if scaled(shifted(shift, amount), factor) > u64::MAX {
        None
    } else {
        Some(scaled(shifted(shift, amount), factor))
    }
}

pub proof fn lemma_pow10_positive(n: nat)
    ensures
        pow10(n) >= 1,
    decreases n,
{
    if n > 0 {
        lemma_pow10_positive((n - 1) as nat);
    }
}

pub proof fn lemma_pow10_monotone(a: nat, b: nat)
    requires
        a <= b,
    ensures
        pow10(a) <= pow10(b),
    decreases b,
{
    if a < b {
        lemma_pow10_monotone(a, (b - 1) as nat);
        lemma_pow10_positive((b - 1) as nat);
    }
}

/// A larger amount never gets a smaller weight, and fits wherever the
/// larger amount's weight fits.
pub proof fn lemma_scaled_weight_monotone(shift: i8, factor: u64, a: nat, b: nat)
    requires
        a <= b,
    ensures
        scaled_weight(shift, factor, b) is Some ==> scaled_weight(shift, factor, a) is Some
            && scaled_weight(shift, factor, a)->Some_0 <= scaled_weight(shift, factor, b)->Some_0,
{
    if shift < 0 {
        let p = pow10((-shift) as nat);
        lemma_pow10_positive((-shift) as nat);
        assert(a / p <= b / p) by (nonlinear_arith)
            requires
                a <= b,
                p >= 1,
        ;
    } else {
        let p = pow10(shift as nat);
        assert(a * p <= b * p) by (nonlinear_arith)
            requires
                a <= b,
        ;
    }
    let sa = shifted(shift, a);
    let sb = shifted(shift, b);
    assert(sa * factor / 1_000_000_000 <= sb * factor / 1_000_000_000) by (nonlinear_arith)
        requires
            sa <= sb,
    ;
}

/// Scaling parameters that turn amounts of one mint into vote weight.
#[derive(Clone, Copy, Debug, PartialEq, Eq, Structural)]
pub struct VotingMintConfig {
    /// The mint whose tokens these parameters apply to.
    pub mint: Pubkey,
    /// The only address allowed to create deposits of this mint for
    /// others; zero when there is none.
    pub grant_authority: Pubkey,
    /// Weight per deposited token, in units of 1e-9.
    pub deposit_scaled_factor: u64,
    /// Extra weight per token locked for at least the saturation time,
    /// in units of 1e-9.
    pub lockup_scaled_factor: u64,
    /// Remaining lockup time at which the full extra weight is earned.
    pub lockup_saturation_secs: u64,
    /// Decimal digits by which native amounts are shifted.
    pub digit_shift: i8,
}

impl VotingMintConfig {
    pub open spec fn spec_in_use(self) -> bool {
        self.deposit_scaled_factor > 0 || self.lockup_scaled_factor > 0
    }

    /// A slot is configured once either scaled factor is nonzero.
    pub fn in_use(&self) -> (r: bool)
        ensures
            r == self.spec_in_use(),
    {
        self.deposit_scaled_factor > 0 || self.lockup_scaled_factor > 0
    }

    /// The unused slot: every field zero.
    pub fn unused() -> (r: VotingMintConfig)
        ensures
            !r.spec_in_use(),
            r.deposit_scaled_factor == 0,
            r.lockup_scaled_factor == 0,
            r.lockup_saturation_secs == 0,
            r.digit_shift == 0,
            r.mint.is_zero(),
    {
        VotingMintConfig {
            mint: Pubkey::zeroed(),
            grant_authority: Pubkey::zeroed(),
            deposit_scaled_factor: 0,
            lockup_scaled_factor: 0,
            lockup_saturation_secs: 0,
            digit_shift: 0,
        }
    }

    pub open spec fn spec_baseline_vote_weight(self, amount: nat) -> Option<nat> {
        scaled_weight(self.digit_shift, self.deposit_scaled_factor, amount)
    }

    pub open spec fn spec_max_extra_lockup_vote_weight(self, amount: nat) -> Option<nat> {
        scaled_weight(self.digit_shift, self.lockup_scaled_factor, amount)
    }

    /// `amount_native` shifted by `digit_shift` decimal digits, rounded
    /// down; fails when the result does not fit in a `u64`.
    pub fn digit_shift_native(&self, amount_native: u64) -> (r: Result<u64, ErrorCode>)
        ensures
            r is Ok <==> shifted(self.digit_shift, amount_native as nat) <= u64::MAX,
            r is Ok ==> r->Ok_0 == shifted(self.digit_shift, amount_native as nat),
            r is Err ==> r->Err_0 == ErrorCode::VoterWeightOverflow,
    {
        if self.digit_shift < 0 {
            let k: u8 = (0i16 - self.digit_shift as i16) as u8;
            let mut val: u64 = amount_native;
            let mut i: u8 = 0;
            proof {
                lemma_pow10_positive(0);
            }
            while i < k
                invariant
                    i <= k,
                    k == -self.digit_shift,
                    val == amount_native as nat / pow10(i as nat),
                decreases k - i,
            {
                proof {
                    lemma_pow10_positive(i as nat);
                    lemma_div_denominator(amount_native as int, pow10(i as nat) as int, 10);
                    assert(pow10((i + 1) as nat) == pow10(i as nat) * 10);
                }
                val = val / 10;
                i = i + 1;
            }
            Ok(val)
        } else {
            let k: u8 = self.digit_shift as u8;
            let mut val: u64 = amount_native;
            let mut i: u8 = 0;
            assert(pow10(0) == 1);
            assert(amount_native as nat * pow10(0) == amount_native as nat) by (nonlinear_arith)
                requires
                    pow10(0) == 1,
            ;
            while i < k
                invariant
                    i <= k,
                    k == self.digit_shift,
                    val == amount_native as nat * pow10(i as nat),
                decreases k - i,
            {
                proof {
                    assert(pow10((i + 1) as nat) == pow10(i as nat) * 10);
                    assert(amount_native as nat * (pow10(i as nat) * 10) == (amount_native as nat
                        * pow10(i as nat)) * 10) by (nonlinear_arith);
                }
                match val.checked_mul(10) {
                    Some(v) => {
                        val = v;
                    },
                    None => {
                        proof {
                            let pk = pow10(k as nat);
                            let pi = pow10((i + 1) as nat);
                            lemma_pow10_monotone((i + 1) as nat, k as nat);
                            assert(amount_native as nat * pi <= amount_native as nat * pk)
                                by (nonlinear_arith)
                                requires
                                    pi <= pk,
                            ;
                        }
                        return Err(ErrorCode::VoterWeightOverflow);
                    },
                }
                i = i + 1;
            }
            Ok(val)
        }
    }

    /// `base * factor / 1e9`, rounded down; fails when the result does not
    /// fit in a `u64`.
    pub fn apply_factor(base: u64, factor: u64) -> (r: Result<u64, ErrorCode>)
        ensures
            r is Ok <==> scaled(base as nat, factor) <= u64::MAX,
            r is Ok ==> r->Ok_0 == scaled(base as nat, factor),
            r is Err ==> r->Err_0 == ErrorCode::VoterWeightOverflow,
    {
        assert(base * factor <= u64::MAX * u64::MAX) by (nonlinear_arith)
            requires
                base <= u64::MAX,
                factor <= u64::MAX,
        ;
        let product: u128 = base as u128 * factor as u128;
        let w: u128 = product / (SCALED_FACTOR_BASE as u128);
        if w > u64::MAX as u128 {
            Err(ErrorCode::VoterWeightOverflow)
        } else {
            Ok(w as u64)
        }
    }

    /// Weight of `amount_native` deposited tokens, ignoring any lockup.
    pub fn baseline_vote_weight(&self, amount_native: u64) -> (r: Result<u64, ErrorCode>)
        ensures
            r is Ok <==> self.spec_baseline_vote_weight(amount_native as nat) is Some,
            r is Ok ==> r->Ok_0 == self.spec_baseline_vote_weight(amount_native as nat)->Some_0,
            r is Err ==> r->Err_0 == ErrorCode::VoterWeightOverflow,
    {
        let base = self.digit_shift_native(amount_native)?;
        Self::apply_factor(base, self.deposit_scaled_factor)
    }

    /// Extra weight of `amount_native` tokens locked for at least the
    /// saturation time.
    pub fn max_extra_lockup_vote_weight(&self, amount_native: u64) -> (r: Result<u64, ErrorCode>)
        ensures
            r is Ok <==> self.spec_max_extra_lockup_vote_weight(amount_native as nat) is Some,
            r is Ok ==> r->Ok_0 == self.spec_max_extra_lockup_vote_weight(
                amount_native as nat,
            )->Some_0,
            r is Err ==> r->Err_0 == ErrorCode::VoterWeightOverflow,
    {
        let base = self.digit_shift_native(amount_native)?;
        Self::apply_factor(base, self.lockup_scaled_factor)
    }
}

} // verus!
