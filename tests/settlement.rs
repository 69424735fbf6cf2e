use memecrash::{
    cash_out, compute_payout, create_round, initialize, place_bet, update_round_state, Bet,
    CashOut, CreateRound, Initialize, InitializeConfig, Key, MemecrashError, PlaceBet, Round,
    RoundStatus, RoundVault, State, UpdateRoundState, MIN_BASE_MULTIPLIER_BPS,
};

fn key(b: u8) -> Key {
    Key::new([b; 32])
}

fn state(fee_bps: u16) -> State {
    State { admin: key(1), treasury: key(2), bet_mint: key(3), fee_bps, bump: 254 }
}

fn round(status: RoundStatus, mult: u64) -> Round {
    Round {
        round_no: 7,
        token_mint: key(3),
        status,
        ruleset_version: 1,
        current_multiplier_bps: mult,
        bump: 253,
    }
}

fn open_bet(amount: u64) -> Bet {
    Bet {
        round: key(9),
        user: key(5),
        amount,
        cashed_out: false,
        payout: 0,
        cash_out_multiplier_bps: 0,
        bump: 252,
    }
}

fn cash_ctx(fee_bps: u16, status: RoundStatus, mult: u64, amount: u64, vault: u64) -> CashOut {
    CashOut {
        state: state(fee_bps),
        round: round(status, mult),
        round_key: key(9),
        bet: open_bet(amount),
        user: key(5),
        round_vault: RoundVault { mint: key(3), amount: vault },
    }
}

fn bet_ctx(status: RoundStatus) -> PlaceBet {
    PlaceBet {
        state: state(200),
        round: round(status, MIN_BASE_MULTIPLIER_BPS),
        round_key: key(9),
        bet: None,
        user: key(5),
        bet_bump: 252,
    }
}

fn update_ctx(admin: Key, mult: u64) -> UpdateRoundState {
    UpdateRoundState { state: state(200), admin, round: round(RoundStatus::Pending, mult) }
}

#[test]
fn payout_arithmetic_example() {
    let p = compute_payout(1_000_000, 25_000, 200).unwrap();
    assert_eq!(p.player_amount, 2_450_000);
    assert_eq!(p.fee_amount, 50_000);
}

#[test]
fn payout_rounds_down() {
    // 3 * 1.5 = 4.5 -> 4; fee 4 * 2.5% = 0.1 -> 0.
    let p = compute_payout(3, 15_000, 250).unwrap();
    assert_eq!(p.player_amount, 4);
    assert_eq!(p.fee_amount, 0);
    // 999 * 1.2345 = 1233.2655 -> 1233; fee 1233 * 3% = 36.99 -> 36.
    let p = compute_payout(999, 12_345, 300).unwrap();
    assert_eq!(p.player_amount, 1197);
    assert_eq!(p.fee_amount, 36);
}

#[test]
fn payout_overflow_and_fee_overflow() {
    assert_eq!(compute_payout(u64::MAX, 20_000, 0).unwrap_err(), MemecrashError::PayoutOverflow);
    assert_eq!(compute_payout(u64::MAX, 20_000, 10_000).unwrap_err(), MemecrashError::FeeOverflow);
    let p = compute_payout(u64::MAX, 10_000, 10_000).unwrap();
    assert_eq!(p.player_amount, 0);
    assert_eq!(p.fee_amount, u64::MAX);
}

#[test]
fn cash_out_settles_and_debits_custody() {
    let mut ctx = cash_ctx(200, RoundStatus::Running, 30_000, 1_000_000, 5_000_000);
    let (p, ev) = cash_out(&mut ctx, 25_000).unwrap();
    assert_eq!(ev.payout, 2_450_000);
    assert!(ev.user.same(&key(5)));
    assert!(ev.round.same(&key(9)));
    assert_eq!(p.player_amount, 2_450_000);
    assert_eq!(p.fee_amount, 50_000);
    assert!(ctx.bet.cashed_out);
    assert_eq!(ctx.bet.payout, 2_450_000);
    assert_eq!(ctx.bet.cash_out_multiplier_bps, 25_000);
    assert_eq!(ctx.round_vault.amount, 5_000_000 - 2_500_000);
}

#[test]
fn cash_out_allowed_after_crash() {
    let mut ctx = cash_ctx(0, RoundStatus::Crashed, 12_000, 100, 1_000);
    let (p, _) = cash_out(&mut ctx, 12_000).unwrap();
    assert_eq!(p.player_amount, 120);
    assert_eq!(p.fee_amount, 0);
    assert_eq!(ctx.round_vault.amount, 880);
}

#[test]
fn second_cash_out_fails_without_effect() {
    let mut ctx = cash_ctx(200, RoundStatus::Running, 30_000, 1_000_000, 10_000_000);
    cash_out(&mut ctx, 20_000).unwrap();
    let settled = ctx;
    assert_eq!(cash_out(&mut ctx, 30_000).unwrap_err(), MemecrashError::AlreadyCashedOut);
    assert_eq!(ctx.bet.payout, settled.bet.payout);
    assert_eq!(ctx.bet.cash_out_multiplier_bps, 20_000);
    assert_eq!(ctx.round_vault.amount, settled.round_vault.amount);
}

#[test]
fn ceiling_rejection() {
    let mut ctx = cash_ctx(200, RoundStatus::Running, 15_000, 1_000_000, 10_000_000);
    assert_eq!(cash_out(&mut ctx, 20_000).unwrap_err(), MemecrashError::MultiplierTooHigh);
    assert!(!ctx.bet.cashed_out);
    assert_eq!(ctx.bet.payout, 0);
    assert_eq!(ctx.round_vault.amount, 10_000_000);
}

#[test]
fn cash_out_refusals() {
    let mut ctx = cash_ctx(200, RoundStatus::Pending, 15_000, 1_000, 10_000);
    assert_eq!(cash_out(&mut ctx, 12_000).unwrap_err(), MemecrashError::RoundNotRunning);
    let mut ctx = cash_ctx(200, RoundStatus::Settled, 15_000, 1_000, 10_000);
    assert_eq!(cash_out(&mut ctx, 12_000).unwrap_err(), MemecrashError::RoundNotRunning);
    let mut ctx = cash_ctx(200, RoundStatus::Running, 15_000, 1_000, 10_000);
    assert_eq!(cash_out(&mut ctx, 9_999).unwrap_err(), MemecrashError::InvalidMultiplier);
    let mut ctx = cash_ctx(200, RoundStatus::Running, 15_000, 1_000, 10_000);
    ctx.user = key(6);
    assert_eq!(cash_out(&mut ctx, 12_000).unwrap_err(), MemecrashError::Unauthorized);
    let mut ctx = cash_ctx(200, RoundStatus::Running, 15_000, 1_000, 10_000);
    ctx.round_key = key(8);
    assert_eq!(cash_out(&mut ctx, 12_000).unwrap_err(), MemecrashError::Unauthorized);
}

#[test]
fn insufficient_custody_is_refused() {
    // gross 1500: player 1470 + fee 30 = 1500 > 1499.
    let mut ctx = cash_ctx(200, RoundStatus::Running, 15_000, 1_000, 1_499);
    assert_eq!(cash_out(&mut ctx, 15_000).unwrap_err(), MemecrashError::InsufficientVaultBalance);
    assert!(!ctx.bet.cashed_out);
    assert_eq!(ctx.round_vault.amount, 1_499);
    let mut ctx = cash_ctx(200, RoundStatus::Running, 15_000, 1_000, 1_500);
    cash_out(&mut ctx, 15_000).unwrap();
    assert_eq!(ctx.round_vault.amount, 0);
}

#[test]
fn cash_out_overflow_errors() {
    let mut ctx = cash_ctx(0, RoundStatus::Running, 20_000, u64::MAX, u64::MAX);
    assert_eq!(cash_out(&mut ctx, 20_000).unwrap_err(), MemecrashError::PayoutOverflow);
    let mut ctx = cash_ctx(10_000, RoundStatus::Running, 20_000, u64::MAX, u64::MAX);
    assert_eq!(cash_out(&mut ctx, 20_000).unwrap_err(), MemecrashError::FeeOverflow);
    assert!(!ctx.bet.cashed_out);
}

#[test]
fn wager_gating() {
    let mut ctx = bet_ctx(RoundStatus::Running);
    assert_eq!(place_bet(&mut ctx, 500).unwrap_err(), MemecrashError::RoundLocked);
    assert!(ctx.bet.is_none());
    let mut ctx = bet_ctx(RoundStatus::Locked);
    assert_eq!(place_bet(&mut ctx, 500).unwrap_err(), MemecrashError::RoundLocked);
    let mut ctx = bet_ctx(RoundStatus::Pending);
    assert_eq!(place_bet(&mut ctx, 0).unwrap_err(), MemecrashError::InvalidAmount);
    assert!(ctx.bet.is_none());
}

#[test]
fn place_bet_records_wager() {
    let mut ctx = bet_ctx(RoundStatus::Pending);
    let ev = place_bet(&mut ctx, 500).unwrap();
    assert_eq!(ev.amount, 500);
    assert!(ev.round.same(&key(9)));
    assert!(ev.user.same(&key(5)));
    let bet = ctx.bet.unwrap();
    assert_eq!(bet.amount, 500);
    assert!(!bet.cashed_out);
    assert_eq!(bet.payout, 0);
    assert_eq!(bet.cash_out_multiplier_bps, 0);
    assert_eq!(bet.bump, 252);
    assert!(bet.user.same(&key(5)));
}

#[test]
fn second_bet_for_pair_is_refused() {
    let mut ctx = bet_ctx(RoundStatus::Pending);
    place_bet(&mut ctx, 500).unwrap();
    assert_eq!(place_bet(&mut ctx, 900).unwrap_err(), MemecrashError::AccountInUse);
    assert_eq!(ctx.bet.unwrap().amount, 500);
}

#[test]
fn multiplier_only_rises() {
    let mut ctx = update_ctx(key(1), 10_000);
    update_round_state(&mut ctx, RoundStatus::Running, 15_000).unwrap();
    assert_eq!(ctx.round.current_multiplier_bps, 15_000);
    assert_eq!(ctx.round.status, RoundStatus::Running);
    update_round_state(&mut ctx, RoundStatus::Running, 15_000).unwrap();
    assert_eq!(
        update_round_state(&mut ctx, RoundStatus::Crashed, 14_999).unwrap_err(),
        MemecrashError::MultiplierRegression
    );
    assert_eq!(ctx.round.current_multiplier_bps, 15_000);
    assert_eq!(ctx.round.status, RoundStatus::Running);
    update_round_state(&mut ctx, RoundStatus::Crashed, 21_000).unwrap();
    assert_eq!(ctx.round.current_multiplier_bps, 21_000);
    assert_eq!(ctx.round.status, RoundStatus::Crashed);
}

#[test]
fn update_refusals() {
    let mut ctx = update_ctx(key(1), 10_000);
    assert_eq!(
        update_round_state(&mut ctx, RoundStatus::Running, 9_999).unwrap_err(),
        MemecrashError::InvalidMultiplier
    );
    let mut ctx = update_ctx(key(4), 10_000);
    assert_eq!(
        update_round_state(&mut ctx, RoundStatus::Running, 12_000).unwrap_err(),
        MemecrashError::Unauthorized
    );
    assert_eq!(ctx.round.current_multiplier_bps, 10_000);
}

#[test]
fn initialize_once() {
    let mut ctx = Initialize { admin: key(1), state: None, bet_mint: key(3), state_bump: 250 };
    let config = InitializeConfig { treasury: key(2), fee_bps: 200 };
    initialize(&mut ctx, config).unwrap();
    let s = ctx.state.unwrap();
    assert!(s.admin.same(&key(1)));
    assert!(s.treasury.same(&key(2)));
    assert!(s.bet_mint.same(&key(3)));
    assert_eq!(s.fee_bps, 200);
    assert_eq!(s.bump, 250);
    let other = InitializeConfig { treasury: key(4), fee_bps: 100 };
    assert_eq!(initialize(&mut ctx, other).unwrap_err(), MemecrashError::AccountInUse);
    assert_eq!(ctx.state.unwrap().fee_bps, 200);
}

#[test]
fn create_round_starts_pending() {
    let mut ctx = CreateRound {
        state: state(200),
        admin: key(1),
        round: None,
        round_vault: None,
        bet_mint: key(3),
        round_bump: 249,
    };
    create_round(&mut ctx, 42, 3).unwrap();
    let r = ctx.round.unwrap();
    assert_eq!(r.round_no, 42);
    assert_eq!(r.status, RoundStatus::Pending);
    assert_eq!(r.ruleset_version, 3);
    assert_eq!(r.current_multiplier_bps, 10_000);
    assert_eq!(r.bump, 249);
    assert_eq!(ctx.round_vault.unwrap().amount, 0);
    assert_eq!(create_round(&mut ctx, 42, 4).unwrap_err(), MemecrashError::AccountInUse);
    assert_eq!(ctx.round.unwrap().ruleset_version, 3);
}

#[test]
fn create_round_needs_operator() {
    let mut ctx = CreateRound {
        state: state(200),
        admin: key(4),
        round: None,
        round_vault: None,
        bet_mint: key(3),
        round_bump: 249,
    };
    assert_eq!(create_round(&mut ctx, 42, 3).unwrap_err(), MemecrashError::Unauthorized);
    assert!(ctx.round.is_none());
}

#[test]
fn keys_compare_by_bytes() {
    assert!(key(1).same(&key(1)));
    assert!(!key(1).same(&key(2)));
    let mut b = [7u8; 32];
    b[31] = 8;
    assert!(!Key::new(b).same(&key(7)));
}
