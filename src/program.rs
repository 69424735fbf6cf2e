use vstd::prelude::*;

use crate::key::Key;
use crate::payout::{compute_payout, payout_result, Payout};
use crate::records::{
    Bet, BetPlaced, CashOutEvent, InitializeConfig, MemecrashError, Round, RoundStatus, RoundVault, State,
    BPS_DENOMINATOR, MIN_BASE_MULTIPLIER_BPS,
};

verus! {

/// Records seen by `initialize`. `state` is the slot at the configuration's
/// derived address: `None` while nothing was created there.
#[derive(Clone, Copy, Debug)]
pub struct Initialize {
    pub admin: Key,
    pub state: Option<State>,
    pub bet_mint: Key,
    pub state_bump: u8,
}

/// Records seen by `create_round`. `round` and `round_vault` are the slots at
/// the addresses derived from the round number.
#[derive(Clone, Copy, Debug)]
pub struct CreateRound {
    pub state: State,
    pub admin: Key,
    pub round: Option<Round>,
    pub round_vault: Option<RoundVault>,
    pub bet_mint: Key,
    pub round_bump: u8,
}

/// Records seen by `update_round_state`.
#[derive(Clone, Copy, Debug)]
pub struct UpdateRoundState {
    pub state: State,
    pub admin: Key,
    pub round: Round,
}

/// Records seen by `place_bet`. `bet` is the slot at the address derived from
/// the pair (`round_key`, `user`).
#[derive(Clone, Copy, Debug)]
pub struct PlaceBet {
    pub state: State,
    pub round: Round,
    pub round_key: Key,
    pub bet: Option<Bet>,
    pub user: Key,
    pub bet_bump: u8,
}

/// Records seen by `cash_out`. `round_vault` is the round's custody account;
/// after a cash-out it holds the balance left once the returned payout and
/// fee have been sent from it.
#[derive(Clone, Copy, Debug)]
pub struct CashOut {
    pub state: State,
    pub round: Round,
    pub round_key: Key,
    pub bet: Bet,
    pub user: Key,
    pub round_vault: RoundVault,
}

/// Whether a round in this status accepts cash-outs.
pub open spec fn accepts_cash_out(status: RoundStatus) -> bool {
    status == RoundStatus::Running || status == RoundStatus::Crashed
}

/// The records after `initialize`, or why it is refused.
pub open spec fn initialize_result(ctx: Initialize, config: InitializeConfig) -> Result<
    Initialize,
    MemecrashError,
> {
    if ctx.state is Some {
        Err(MemecrashError::AccountInUse)
    } else {
        Ok(
            Initialize {
                state: Some(
                    State {
                        admin: ctx.admin,
                        treasury: config.treasury,
                        bet_mint: ctx.bet_mint,
                        fee_bps: config.fee_bps,
                        bump: ctx.state_bump,
                    },
                ),
                ..ctx
            },
        )
    }
}

/// The records after `create_round`, or why it is refused.
pub open spec fn create_round_result(
    ctx: CreateRound,
    round_no: u64,
    ruleset_version: u8,
) -> Result<CreateRound, MemecrashError> {
    if ctx.admin@ != ctx.state.admin@ {
        Err(MemecrashError::Unauthorized)
    } else if ctx.round is Some || ctx.round_vault is Some {
        Err(MemecrashError::AccountInUse)
    } else {
        Ok(
            CreateRound {
                round: Some(
                    Round {
                        round_no,
                        token_mint: ctx.bet_mint,
                        status: RoundStatus::Pending,
                        ruleset_version,
                        current_multiplier_bps: MIN_BASE_MULTIPLIER_BPS,
                        bump: ctx.round_bump,
                    },
                ),
                round_vault: Some(RoundVault { mint: ctx.bet_mint, amount: 0 }),
                ..ctx
            },
        )
    }
}

/// The records after `update_round_state`, or why it is refused.
pub open spec fn update_round_state_result(
    ctx: UpdateRoundState,
    status: RoundStatus,
    current_multiplier_bps: u64,
) -> Result<UpdateRoundState, MemecrashError> {
    if ctx.admin@ != ctx.state.admin@ {
        Err(MemecrashError::Unauthorized)
    } else if current_multiplier_bps < MIN_BASE_MULTIPLIER_BPS {
        Err(MemecrashError::InvalidMultiplier)
    } else if current_multiplier_bps < ctx.round.current_multiplier_bps {
        Err(MemecrashError::MultiplierRegression)
    } else {
        Ok(UpdateRoundState { round: Round { status, current_multiplier_bps, ..ctx.round }, ..ctx })
    }
}

/// The records after `place_bet` and the notification it emits, or why it
/// is refused.
pub open spec fn place_bet_result(ctx: PlaceBet, amount: u64) -> Result<
    (PlaceBet, BetPlaced),
    MemecrashError,
> {
    if ctx.bet is Some {
        Err(MemecrashError::AccountInUse)
    } else if amount == 0 {
        Err(MemecrashError::InvalidAmount)
    } else if ctx.round.status != RoundStatus::Pending {
        Err(MemecrashError::RoundLocked)
    } else {
        Ok(
            (
                PlaceBet {
                    bet: Some(
                        Bet {
                            round: ctx.round_key,
                            user: ctx.user,
                            amount,
                            cashed_out: false,
                            payout: 0,
                            cash_out_multiplier_bps: 0,
                            bump: ctx.bet_bump,
                        },
                    ),
                    ..ctx
                },
                BetPlaced { round: ctx.round_key, user: ctx.user, amount },
            ),
        )
    }
}

/// The records after `cash_out` and the amounts it sends from custody, or
/// why it is refused.
pub open spec fn cash_out_result(ctx: CashOut, multiplier_bps: u64) -> Result<
    (CashOut, Payout),
    MemecrashError,
> {
    if ctx.bet.user@ != ctx.user@ || ctx.bet.round@ != ctx.round_key@ {
        Err(MemecrashError::Unauthorized)
    } else if !accepts_cash_out(ctx.round.status) {
        Err(MemecrashError::RoundNotRunning)
    } else if ctx.bet.cashed_out {
        Err(MemecrashError::AlreadyCashedOut)
    } else if multiplier_bps < MIN_BASE_MULTIPLIER_BPS {
        Err(MemecrashError::InvalidMultiplier)
    } else if multiplier_bps > ctx.round.current_multiplier_bps {
        Err(MemecrashError::MultiplierTooHigh)
    } else {
        match payout_result(ctx.bet.amount, multiplier_bps, ctx.state.fee_bps) {
            Err(e) => Err(e),
            Ok(p) => if p.player_amount + p.fee_amount > ctx.round_vault.amount {
                Err(MemecrashError::InsufficientVaultBalance)
            } else {
                Ok(
                    (
                        CashOut {
                            bet: Bet {
                                cashed_out: true,
                                payout: p.player_amount,
                                cash_out_multiplier_bps: multiplier_bps,
                                ..ctx.bet
                            },
                            round_vault: RoundVault {
                                amount: (ctx.round_vault.amount - p.player_amount
                                    - p.fee_amount) as u64,
                                ..ctx.round_vault
                            },
                            ..ctx
                        },
                        p,
                    ),
                )
            },
        }
    }
}

/// Creates the global configuration in its empty slot, with the signer as
/// operator.
pub fn initialize(ctx: &mut Initialize, config: InitializeConfig) -> (r: Result<(), MemecrashError>)
    requires
        config.fee_bps <= BPS_DENOMINATOR,
    ensures
        match initialize_result(*old(ctx), config) {
            Ok(c) => r is Ok && *final(ctx) == c,
            Err(e) => r == Err::<(), _>(e) && *final(ctx) == *old(ctx),
        },
        r is Ok ==> final(ctx).state.unwrap().wf(),
{
    if ctx.state.is_some() {
        return Err(MemecrashError::AccountInUse);
    }
    ctx.state = Some(
        State {
            admin: ctx.admin,
            treasury: config.treasury,
            bet_mint: ctx.bet_mint,
            fee_bps: config.fee_bps,
            bump: ctx.state_bump,
        },
    );
    Ok(())
}

/// Creates a `Pending` round at 1.00x and its empty custody account; only
/// the operator may.
pub fn create_round(ctx: &mut CreateRound, round_no: u64, ruleset_version: u8) -> (r: Result<
    (),
    MemecrashError,
>)
    ensures
        match create_round_result(*old(ctx), round_no, ruleset_version) {
            Ok(c) => r is Ok && *final(ctx) == c,
            Err(e) => r == Err::<(), _>(e) && *final(ctx) == *old(ctx),
        },
        r is Ok ==> final(ctx).round.unwrap().wf(),
{
    if !ctx.admin.same(&ctx.state.admin) {
        return Err(MemecrashError::Unauthorized);
    }
    if ctx.round.is_some() || ctx.round_vault.is_some() {
        return Err(MemecrashError::AccountInUse);
    }
    ctx.round = Some(
        Round {
            round_no,
            token_mint: ctx.bet_mint,
            status: RoundStatus::Pending,
            ruleset_version,
            current_multiplier_bps: MIN_BASE_MULTIPLIER_BPS,
            bump: ctx.round_bump,
        },
    );
    ctx.round_vault = Some(RoundVault { mint: ctx.bet_mint, amount: 0 });
    Ok(())
}

/// Sets a round's status and multiplier; only the operator may, and the
/// multiplier never goes below 1.00x nor below its current value. Any status
/// may follow any other: the operations that need a given status (wagering
/// while `Pending`, cashing out while `Running` or `Crashed`) are what refuse
/// a round in the wrong one.
pub fn update_round_state(
    ctx: &mut UpdateRoundState,
    status: RoundStatus,
    current_multiplier_bps: u64,
) -> (r: Result<(), MemecrashError>)
    ensures
        match update_round_state_result(*old(ctx), status, current_multiplier_bps) {
            Ok(c) => r is Ok && *final(ctx) == c,
            Err(e) => r == Err::<(), _>(e) && *final(ctx) == *old(ctx),
        },
        final(ctx).round.current_multiplier_bps >= old(ctx).round.current_multiplier_bps,
        current_multiplier_bps < old(ctx).round.current_multiplier_bps ==> r is Err,
        old(ctx).round.wf() ==> final(ctx).round.wf(),
{
    if !ctx.admin.same(&ctx.state.admin) {
        return Err(MemecrashError::Unauthorized);
    }
    if current_multiplier_bps < MIN_BASE_MULTIPLIER_BPS {
        return Err(MemecrashError::InvalidMultiplier);
    }
    if current_multiplier_bps < ctx.round.current_multiplier_bps {
        return Err(MemecrashError::MultiplierRegression);
    }
    ctx.round.status = status;
    ctx.round.current_multiplier_bps = current_multiplier_bps;
    Ok(())
}

/// Records a positive wager on a `Pending` round in the empty slot of the
/// (round, participant) pair, and returns the notification of it. The stake
/// itself is moved to custody by the caller, in the same atomic step.
pub fn place_bet(ctx: &mut PlaceBet, amount: u64) -> (r: Result<BetPlaced, MemecrashError>)
    ensures
        match place_bet_result(*old(ctx), amount) {
            Ok((c, ev)) => r == Ok::<_, MemecrashError>(ev) && *final(ctx) == c,
            Err(e) => r == Err::<BetPlaced, _>(e) && *final(ctx) == *old(ctx),
        },
        r is Ok ==> final(ctx).bet.unwrap().wf(),
{
    if ctx.bet.is_some() {
        return Err(MemecrashError::AccountInUse);
    }
    if amount == 0 {
        return Err(MemecrashError::InvalidAmount);
    }
    if !matches!(ctx.round.status, RoundStatus::Pending) {
        return Err(MemecrashError::RoundLocked);
    }
    ctx.bet = Some(
        Bet {
            round: ctx.round_key,
            user: ctx.user,
            amount,
            cashed_out: false,
            payout: 0,
            cash_out_multiplier_bps: 0,
            bump: ctx.bet_bump,
        },
    );
    Ok(BetPlaced { round: ctx.round_key, user: ctx.user, amount })
}

/// Settles a bet at `multiplier_bps`: checks the claim against the round,
/// splits the payout, checks it against custody, and marks the bet settled.
/// The returned amounts are to be sent from custody to the participant and
/// to the treasury, in the same atomic step; the notification goes with them.
pub fn cash_out(ctx: &mut CashOut, multiplier_bps: u64) -> (r: Result<
    (Payout, CashOutEvent),
    MemecrashError,
>)
    requires
        old(ctx).state.wf(),
    ensures
        match cash_out_result(*old(ctx), multiplier_bps) {
            Ok((c, p)) => {
                &&& r == Ok::<_, MemecrashError>(
                    (
                        p,
                        CashOutEvent {
                            round: old(ctx).round_key,
                            user: old(ctx).user,
                            payout: p.player_amount,
                        },
                    ),
                )
                &&& *final(ctx) == c
            },
            Err(e) => r == Err::<(Payout, CashOutEvent), _>(e) && *final(ctx) == *old(ctx),
        },
        old(ctx).bet.wf() ==> final(ctx).bet.wf(),
        r matches Ok((p, _)) ==> {
            &&& p.player_amount + p.fee_amount <= old(ctx).round_vault.amount
            &&& final(ctx).round_vault.amount == old(ctx).round_vault.amount - p.player_amount
                - p.fee_amount
        },
{
    if !ctx.bet.user.same(&ctx.user) || !ctx.bet.round.same(&ctx.round_key) {
        return Err(MemecrashError::Unauthorized);
    }
    if !(matches!(ctx.round.status, RoundStatus::Running) || matches!(
        ctx.round.status,
        RoundStatus::Crashed
    )) {
        return Err(MemecrashError::RoundNotRunning);
    }
    if ctx.bet.cashed_out {
        return Err(MemecrashError::AlreadyCashedOut);
    }
    if multiplier_bps < MIN_BASE_MULTIPLIER_BPS {
        return Err(MemecrashError::InvalidMultiplier);
    }
    if multiplier_bps > ctx.round.current_multiplier_bps {
        return Err(MemecrashError::MultiplierTooHigh);
    }
    let p = match compute_payout(ctx.bet.amount, multiplier_bps, ctx.state.fee_bps) {
        Ok(p) => p,
        Err(e) => return Err(e),
    };
    if p.player_amount as u128 + p.fee_amount as u128 > ctx.round_vault.amount as u128 {
        return Err(MemecrashError::InsufficientVaultBalance);
    }
    ctx.round_vault.amount = ctx.round_vault.amount - p.player_amount - p.fee_amount;
    ctx.bet.cashed_out = true;
    ctx.bet.payout = p.player_amount;
    ctx.bet.cash_out_multiplier_bps = multiplier_bps;
    Ok((p, CashOutEvent { round: ctx.round_key, user: ctx.user, payout: p.player_amount }))
}

} // verus!
