use vstd::prelude::*;

use crate::key::Key;

verus! {

/// Lowest multiplier a round may carry or a cash-out may claim: 1.00x in
/// basis points.
pub const MIN_BASE_MULTIPLIER_BPS: u64 = 10_000;

/// Denominator of every basis-point quantity.
pub const BPS_DENOMINATOR: u64 = 10_000;

/// Life cycle of a round. `Running` and `Crashed` accept cash-outs; wagers
/// are only taken while `Pending`.
#[derive(Clone, Copy, Debug, PartialEq, Eq, Structural)]
pub enum RoundStatus {
    Pending,
    Locked,
    Running,
    Crashed,
    Settled,
    Canceled,
}

/// Every way an operation of the game can be refused.
#[derive(Clone, Copy, Debug, PartialEq, Eq, Structural)]
pub enum MemecrashError {
    /// A wager was placed on a round that is no longer `Pending`.
    RoundLocked,
    /// A wager of zero.
    InvalidAmount,
    /// A cash-out on a round that is neither `Running` nor `Crashed`.
    RoundNotRunning,
    /// A cash-out on a bet that is already settled.
    AlreadyCashedOut,
    /// The caller is not the operator, or not the owner of the bet.
    Unauthorized,
    /// A multiplier below 1.00x.
    InvalidMultiplier,
    /// A cash-out above the multiplier the round has reached.
    MultiplierTooHigh,
    /// An update that would lower the round's multiplier.
    MultiplierRegression,
    /// The payout and fee together exceed the round's custody balance.
    InsufficientVaultBalance,
    /// The participant's share does not fit a token amount.
    PayoutOverflow,
    /// The fee does not fit a token amount.
    FeeOverflow,
    /// A record already exists at the address derived for a new one.
    AccountInUse,
}

/// The global configuration, created once.
#[derive(Clone, Copy, Debug)]
pub struct State {
    pub admin: Key,
    pub treasury: Key,
    pub bet_mint: Key,
    pub fee_bps: u16,
    pub bump: u8,
}

impl State {
    /// The fee rate is a fraction of one: at most 10000 basis points.
    pub open spec fn wf(&self) -> bool {
        self.fee_bps <= BPS_DENOMINATOR
    }
}

/// Operator-supplied part of the configuration.
#[derive(Clone, Copy, Debug)]
pub struct InitializeConfig {
    pub treasury: Key,
    pub fee_bps: u16,
}

/// One round of the game.
#[derive(Clone, Copy, Debug)]
pub struct Round {
    pub round_no: u64,
    pub token_mint: Key,
    pub status: RoundStatus,
    pub ruleset_version: u8,
    pub current_multiplier_bps: u64,
    pub bump: u8,
}

impl Round {
    /// A round never stands below 1.00x.
    pub open spec fn wf(&self) -> bool {
        self.current_multiplier_bps >= MIN_BASE_MULTIPLIER_BPS
    }
}

/// One participant's wager in one round.
#[derive(Clone, Copy, Debug)]
pub struct Bet {
    pub round: Key,
    pub user: Key,
    pub amount: u64,
    pub cashed_out: bool,
    pub payout: u64,
    pub cash_out_multiplier_bps: u64,
    pub bump: u8,
}

impl Bet {
    /// A stake is positive; an open bet has no payout and no settlement
    /// multiplier yet, a settled one was settled at 1.00x or more.
    pub open spec fn wf(&self) -> bool {
        &&& self.amount > 0
        &&& if self.cashed_out {
            self.cash_out_multiplier_bps >= MIN_BASE_MULTIPLIER_BPS
        } else {
            self.payout == 0 && self.cash_out_multiplier_bps == 0
        }
    }
}

/// Notification that a wager was recorded.
#[derive(Clone, Copy, Debug)]
pub struct BetPlaced {
    pub round: Key,
    pub user: Key,
    pub amount: u64,
}

/// Notification that a bet was settled.
#[derive(Clone, Copy, Debug)]
pub struct CashOutEvent {
    pub round: Key,
    pub user: Key,
    pub payout: u64,
}

/// The custody account of one round: the tokens staked in it and not yet
/// paid out.
#[derive(Clone, Copy, Debug)]
pub struct RoundVault {
    pub mint: Key,
    pub amount: u64,
}

} // verus!
