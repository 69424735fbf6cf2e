//! Settlement core of a crash-style wagering game: rounds whose multiplier
//! only rises, one wager per (round, participant), and cash-outs whose payout
//! is capped by the round's custody balance.
pub mod key;
pub mod laws;
pub mod payout;
pub mod program;
pub mod records;

pub use key::Key;
pub use laws::{
    apply_updates, lemma_multiplier_monotonic, lemma_one_bet_per_pair, lemma_settles_once,
    lemma_update_never_lowers,
};
pub use payout::{compute_payout, Payout};
pub use program::{
    cash_out, create_round, initialize, place_bet, update_round_state, CashOut, CreateRound,
    Initialize, PlaceBet, UpdateRoundState,
};
pub use records::{
    Bet, BetPlaced, CashOutEvent, InitializeConfig, MemecrashError, Round, RoundStatus, RoundVault,
    State, BPS_DENOMINATOR, MIN_BASE_MULTIPLIER_BPS,
};
