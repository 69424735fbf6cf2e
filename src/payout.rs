use vstd::prelude::*;

use crate::records::{MemecrashError, BPS_DENOMINATOR};

verus! {

/// The two amounts a cash-out moves out of custody.
#[derive(Clone, Copy, Debug)]
pub struct Payout {
    /// Sent to the participant.
    pub player_amount: u64,
    /// Sent to the treasury.
    pub fee_amount: u64,
}

/// Stake scaled by the multiplier, rounded down.
pub open spec fn gross_payout(amount: nat, multiplier_bps: nat) -> nat {
    amount * multiplier_bps / 10_000
}

/// The protocol's share of a gross payout, rounded down.
pub open spec fn fee_of(gross: nat, fee_bps: nat) -> nat {
    gross * fee_bps / 10_000
}

/// What the participant receives: the gross payout less the fee.
pub open spec fn player_of(gross: nat, fee_bps: nat) -> int {
    gross - fee_of(gross, fee_bps)
}

/// The outcome of splitting a cash-out: refused when either share does not
/// fit a token amount.
pub open spec fn payout_result(amount: u64, multiplier_bps: u64, fee_bps: u16) -> Result<
    Payout,
    MemecrashError,
> {
    let gross = gross_payout(amount as nat, multiplier_bps as nat);
    let fee = fee_of(gross, fee_bps as nat);
    let player = player_of(gross, fee_bps as nat);
    if player > u64::MAX {
        Err(MemecrashError::PayoutOverflow)
    } else if fee > u64::MAX {
        Err(MemecrashError::FeeOverflow)
    } else {
        Ok(Payout { player_amount: player as u64, fee_amount: fee as u64 })
    }
}

proof fn lemma_scaled_down(x: nat, y: nat)
    requires
        y <= 10_000,
    ensures
        x * y / 10_000 <= x,
        x * y <= x * 10_000,
{
    assert(x * y <= x * 10_000) by (nonlinear_arith)
        requires
            y <= 10_000,
    ;
    vstd::arithmetic::div_mod::lemma_div_is_ordered((x * y) as int, (x * 10_000) as int, 10_000);
    vstd::arithmetic::div_mod::lemma_div_by_multiple(x as int, 10_000);
}

/// Splits the payout of a stake cashed out at `multiplier_bps` into the
/// participant's share and the fee, in 128-bit arithmetic.
pub fn compute_payout(amount: u64, multiplier_bps: u64, fee_bps: u16) -> (r: Result<
    Payout,
    MemecrashError,
>)
    requires
        fee_bps <= BPS_DENOMINATOR,
    ensures
        r == payout_result(amount, multiplier_bps, fee_bps),
{
    let a = amount as u128;
    let m = multiplier_bps as u128;
    proof {
        assert(a * m <= (u64::MAX as int) * (u64::MAX as int)) by (nonlinear_arith)
            requires
                a <= u64::MAX,
                m <= u64::MAX,
        ;
    }
    let gross: u128 = a * m / (BPS_DENOMINATOR as u128);
    let f = fee_bps as u128;
    proof {
        lemma_scaled_down(gross as nat, f as nat);
        vstd::arithmetic::div_mod::lemma_fundamental_div_mod((a * m) as int, 10_000);
        assert(gross * 10_000 <= a * m) by (nonlinear_arith)
            requires
                gross == (a * m) / 10_000,
                a * m >= 0,
        ;
    }
    let fee: u128 = gross * f / (BPS_DENOMINATOR as u128);
    let player: u128 = gross - fee;
    if player > u64::MAX as u128 {
        Err(MemecrashError::PayoutOverflow)
    } else if fee > u64::MAX as u128 {
        Err(MemecrashError::FeeOverflow)
    } else {
        Ok(Payout { player_amount: player as u64, fee_amount: fee as u64 })
    }
}

} // verus!
