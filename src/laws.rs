use vstd::prelude::*;

use crate::program::{
    cash_out_result, place_bet_result, update_round_state_result, CashOut, PlaceBet,
    UpdateRoundState,
};
use crate::records::{MemecrashError, RoundStatus};

verus! {

/// The round records after a sequence of `update_round_state` calls, each
/// applied to the records the previous one left; a refused call changes
/// nothing.
pub open spec fn apply_updates(ctx: UpdateRoundState, steps: Seq<(RoundStatus, u64)>) -> UpdateRoundState
    decreases steps.len(),
{
    if steps.len() == 0 {
        ctx
    } else {
        let prev = apply_updates(ctx, steps.drop_last());
        match update_round_state_result(prev, steps.last().0, steps.last().1) {
            Ok(c) => c,
            Err(_) => prev,
        }
    }
}

/// An update never lowers the round's multiplier, and one that asks for a
/// lower value is refused and leaves the records as they were.
pub proof fn lemma_update_never_lowers(ctx: UpdateRoundState, status: RoundStatus, m: u64)
    ensures
        update_round_state_result(ctx, status, m) matches Ok(c)
            ==> c.round.current_multiplier_bps >= ctx.round.current_multiplier_bps,
        m < ctx.round.current_multiplier_bps ==> update_round_state_result(ctx, status, m) is Err,
{
}

/// Over any sequence of `update_round_state` calls the stored multiplier is
/// non-decreasing: each prefix ends at a multiplier no lower than the one
/// before it, and none ends below where the round started.
pub proof fn lemma_multiplier_monotonic(ctx: UpdateRoundState, steps: Seq<(RoundStatus, u64)>)
    ensures
        apply_updates(ctx, steps).round.current_multiplier_bps >= ctx.round.current_multiplier_bps,
        forall|i: int|
            0 < i <= steps.len() ==> #[trigger] apply_updates(
                ctx,
                steps.take(i),
            ).round.current_multiplier_bps >= apply_updates(
                ctx,
                steps.take(i - 1),
            ).round.current_multiplier_bps,
    decreases steps.len(),
{
    if steps.len() > 0 {
        lemma_multiplier_monotonic(ctx, steps.drop_last());
        assert forall|i: int| 0 < i <= steps.len() implies #[trigger] apply_updates(
            ctx,
            steps.take(i),
        ).round.current_multiplier_bps >= apply_updates(
            ctx,
            steps.take(i - 1),
        ).round.current_multiplier_bps by {
            assert(steps.take(i).drop_last() =~= steps.take(i - 1));
            lemma_update_never_lowers(
                apply_updates(ctx, steps.take(i - 1)),
                steps.take(i).last().0,
                steps.take(i).last().1,
            );
        }
    }
}

/// A bet is settled at most once: after a successful cash-out every further
/// attempt, at any multiplier, is refused as already cashed out; and any
/// attempt on a settled bet is refused.
pub proof fn lemma_settles_once(ctx: CashOut, first_bps: u64, second_bps: u64)
    ensures
        cash_out_result(ctx, first_bps) matches Ok((c, _)) ==> cash_out_result(c, second_bps)
            == Err::<(CashOut, crate::payout::Payout), _>(MemecrashError::AlreadyCashedOut),
        ctx.bet.cashed_out ==> cash_out_result(ctx, second_bps) is Err,
{
}

/// A (round, participant) pair holds one bet: once a wager was recorded in
/// its slot, a second placement, of any amount, is refused at creation and
/// the first record stands.
pub proof fn lemma_one_bet_per_pair(ctx: PlaceBet, first: u64, second: u64)
    ensures
        place_bet_result(ctx, first) matches Ok((c, _)) ==> {
            &&& place_bet_result(c, second) == Err::<(PlaceBet, crate::records::BetPlaced), _>(
                MemecrashError::AccountInUse,
            )
            &&& c.bet is Some
        },
{
}

} // verus!
