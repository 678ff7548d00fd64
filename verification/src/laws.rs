//! What holds of the pool and its positions across operations.

use vstd::prelude::*;
use vstd::arithmetic::div_mod::{lemma_div_is_ordered, lemma_fundamental_div_mod};
use crate::amm::{
    Amm, Side, lemma_matched_deposit_within, lemma_part_within, lemma_trade_admits,
};
use crate::errors::PlasmaError;
use crate::fixed::{scaled_floor, ONE_BITS};
use crate::instructions::SwapType;
use crate::lp::LpPosition;
use crate::SlotWindow;

verus! {

/// The shares that a set of positions owns together.
pub open spec fn total_position_shares(positions: Seq<LpPosition>) -> int
    decreases positions.len(),
{
    if positions.len() == 0 {
        0
    } else {
        total_position_shares(positions.drop_last()) + positions.last().lp_shares
    }
}

/// Replacing one position changes the total by the change of its shares.
pub proof fn lemma_total_position_shares_update(
    positions: Seq<LpPosition>,
    i: int,
    position: LpPosition,
)
    requires
        0 <= i < positions.len(),
    ensures
        total_position_shares(positions.update(i, position)) == total_position_shares(positions)
            - positions[i].lp_shares + position.lp_shares,
    decreases positions.len(),
{
    let updated = positions.update(i, position);
    if i == positions.len() - 1 {
        assert(updated.drop_last() =~= positions.drop_last());
    } else {
        lemma_total_position_shares_update(positions.drop_last(), i, position);
        assert(updated.drop_last() =~= positions.drop_last().update(i, position));
    }
}

/// Bringing a position up to date keeps its shares, and keeps every share
/// either withdrawable or waiting to vest.
pub proof fn lemma_preprocess_keeps_shares(position: LpPosition, slot: SlotWindow, amm: Amm)
    requires
        position.preprocess_outcome(slot, amm) is Ok,
    ensures
        position.preprocessed(slot, amm).lp_shares == position.lp_shares,
        position.wf() ==> position.preprocessed(slot, amm).wf(),
{
}

/// Bringing a position up to date twice in one slot, with the pool
/// unchanged, does nothing the second time: no share vests, no fee accrues,
/// and the position stays as the first time left it.
pub proof fn lemma_preprocess_idempotent(position: LpPosition, slot: SlotWindow, amm: Amm)
    requires
        position.preprocess_outcome(slot, amm) is Ok,
    ensures
        position.preprocessed(slot, amm).preprocess_outcome(slot, amm) == Ok::<
            (u64, u64),
            PlasmaError,
        >((0, 0)),
        position.preprocessed(slot, amm).preprocessed(slot, amm) == position.preprocessed(
            slot,
            amm,
        ),
{
    let once = position.preprocessed(slot, amm);
    assert(once.reward_delta(amm) == 0);
    assert(0 * (once.lp_shares as int) == 0);
    assert(scaled_floor(0, once.lp_shares as int) == 0);
}

/// Collecting fees twice in one slot, with the pool unchanged, collects
/// nothing the second time and leaves the position as the first time left it.
pub proof fn lemma_collect_fees_idempotent(position: LpPosition, slot: SlotWindow, amm: Amm)
    requires
        position.collect_fees_outcome(slot, amm) is Ok,
    ensures
        position.after_collection(slot, amm).collect_fees_outcome(slot, amm) == Ok::<
            u64,
            PlasmaError,
        >(0),
        position.after_collection(slot, amm).after_collection(slot, amm)
            == position.after_collection(slot, amm),
{
    let once = position.after_collection(slot, amm);
    assert(once.reward_delta(amm) == 0);
    assert(0 * (once.lp_shares as int) == 0);
    assert(scaled_floor(0, once.lp_shares as int) == 0);
}

/// A deposit keeps every share of the position either withdrawable or
/// waiting to vest.
pub proof fn lemma_add_liquidity_keeps_wf(
    position: LpPosition,
    slot: SlotWindow,
    amm: Amm,
    base_amount_desired: u64,
    quote_amount_desired: u64,
    initial_lp_shares: Option<u64>,
)
    requires
        position.wf(),
        position.add_liquidity_outcome(
            slot,
            amm,
            base_amount_desired,
            quote_amount_desired,
            initial_lp_shares,
        ) is Ok,
    ensures
        position.after_deposit(
            slot,
            amm,
            position.add_liquidity_outcome(
                slot,
                amm,
                base_amount_desired,
                quote_amount_desired,
                initial_lp_shares,
            )->Ok_0.lp_shares_received,
        ).wf(),
{
}

/// A withdrawal keeps every share of the position either withdrawable or
/// waiting to vest.
pub proof fn lemma_remove_liquidity_keeps_wf(
    position: LpPosition,
    slot: SlotWindow,
    amm: Amm,
    lp_shares: u64,
)
    requires
        position.wf(),
        position.remove_liquidity_outcome(slot, amm, lp_shares) is Ok,
        lp_shares <= position.preprocessed(slot, amm).withdrawable_lp_shares,
    ensures
        position.after_withdrawal(slot, amm, lp_shares).wf(),
{
}

/// A transfer keeps every share of both positions either withdrawable or
/// waiting to vest, where that held of the destination before.
pub proof fn lemma_transfer_liquidity_keeps_wf(
    source: LpPosition,
    slot: SlotWindow,
    amm: Amm,
    destination: LpPosition,
)
    requires
        destination.wf(),
        source.transfer_liquidity_outcome(slot, amm, destination) is Ok,
    ensures
        source.after_transfer_out(slot, amm).wf(),
        destination.after_transfer_in(
            slot,
            amm,
            source.transfer_liquidity_outcome(slot, amm, destination)->Ok_0,
        ).wf(),
{
}

/// Collecting fees keeps the shares of the position as they are.
pub proof fn lemma_collect_fees_keeps_shares(position: LpPosition, slot: SlotWindow, amm: Amm)
    requires
        position.collect_fees_outcome(slot, amm) is Ok,
    ensures
        position.after_collection(slot, amm).lp_shares == position.lp_shares,
        position.wf() ==> position.after_collection(slot, amm).wf(),
{
}

/// Where the positions of a pool own its supply of shares between them, they
/// still do after one of them deposits.
pub proof fn lemma_add_liquidity_keeps_supply(
    positions: Seq<LpPosition>,
    i: int,
    slot: SlotWindow,
    amm: Amm,
    base_amount_desired: u64,
    quote_amount_desired: u64,
    initial_lp_shares: Option<u64>,
)
    requires
        0 <= i < positions.len(),
        total_position_shares(positions) == amm.total_lp_shares,
        positions[i].add_liquidity_outcome(
            slot,
            amm,
            base_amount_desired,
            quote_amount_desired,
            initial_lp_shares,
        ) is Ok,
    ensures
        ({
            let res = positions[i].add_liquidity_outcome(
                slot,
                amm,
                base_amount_desired,
                quote_amount_desired,
                initial_lp_shares,
            )->Ok_0;
            total_position_shares(
                positions.update(i, positions[i].after_deposit(slot, amm, res.lp_shares_received)),
            ) == amm.minted(
                slot,
                res.base_amount_deposited,
                res.quote_amount_deposited,
                res.lp_shares_received,
            ).total_lp_shares
        }),
{
    let res = positions[i].add_liquidity_outcome(
        slot,
        amm,
        base_amount_desired,
        quote_amount_desired,
        initial_lp_shares,
    )->Ok_0;
    lemma_total_position_shares_update(
        positions,
        i,
        positions[i].after_deposit(slot, amm, res.lp_shares_received),
    );
}

/// Where the positions of a pool own its supply of shares between them, they
/// still do after one of them withdraws.
pub proof fn lemma_remove_liquidity_keeps_supply(
    positions: Seq<LpPosition>,
    i: int,
    slot: SlotWindow,
    amm: Amm,
    lp_shares: u64,
)
    requires
        0 <= i < positions.len(),
        total_position_shares(positions) == amm.total_lp_shares,
        positions[i].remove_liquidity_outcome(slot, amm, lp_shares) is Ok,
        lp_shares <= positions[i].preprocessed(slot, amm).withdrawable_lp_shares,
    ensures
        ({
            let res = positions[i].remove_liquidity_outcome(slot, amm, lp_shares)->Ok_0;
            total_position_shares(
                positions.update(i, positions[i].after_withdrawal(slot, amm, lp_shares)),
            ) == amm.burned(
                slot,
                res.base_amount_withdrawn,
                res.quote_amount_withdrawn,
                lp_shares,
            ).total_lp_shares
        }),
{
    lemma_total_position_shares_update(
        positions,
        i,
        positions[i].after_withdrawal(slot, amm, lp_shares),
    );
}

/// A request for more than is withdrawable is no failure and burns nothing:
/// it reports what bringing the position up to date vested and accrued, and
/// nothing withdrawn.
pub proof fn lemma_oversized_removal_is_no_fault(
    position: LpPosition,
    slot: SlotWindow,
    amm: Amm,
    lp_shares: u64,
)
    requires
        position.preprocess_outcome(slot, amm) is Ok,
        lp_shares > position.preprocessed(slot, amm).withdrawable_lp_shares,
    ensures
        position.remove_liquidity_outcome(slot, amm, lp_shares) is Ok,
        position.remove_liquidity_outcome(slot, amm, lp_shares)->Ok_0.lp_shares_burned == 0,
        position.remove_liquidity_outcome(slot, amm, lp_shares)->Ok_0.base_amount_withdrawn == 0,
        position.remove_liquidity_outcome(slot, amm, lp_shares)->Ok_0.quote_amount_withdrawn == 0,
{
}

/// The positions of a pool own the same shares between them after one of
/// them transfers its shares to another.
pub proof fn lemma_transfer_liquidity_keeps_supply(
    positions: Seq<LpPosition>,
    i: int,
    j: int,
    slot: SlotWindow,
    amm: Amm,
)
    requires
        0 <= i < positions.len(),
        0 <= j < positions.len(),
        i != j,
        positions[i].transfer_liquidity_outcome(slot, amm, positions[j]) is Ok,
    ensures
        ({
            let moved = positions[i].transfer_liquidity_outcome(slot, amm, positions[j])->Ok_0;
            total_position_shares(
                positions.update(i, positions[i].after_transfer_out(slot, amm)).update(
                    j,
                    positions[j].after_transfer_in(slot, amm, moved),
                ),
            ) == total_position_shares(positions)
        }),
{
    let moved = positions[i].transfer_liquidity_outcome(slot, amm, positions[j])->Ok_0;
    let first = positions.update(i, positions[i].after_transfer_out(slot, amm));
    lemma_total_position_shares_update(positions, i, positions[i].after_transfer_out(slot, amm));
    lemma_total_position_shares_update(first, j, positions[j].after_transfer_in(slot, amm, moved));
}

/// A first deposit that asks for no shares fails, whatever it offers.
pub proof fn lemma_first_deposit_needs_shares(
    position: LpPosition,
    slot: SlotWindow,
    amm: Amm,
    base_amount_desired: u64,
    quote_amount_desired: u64,
)
    requires
        amm.total_lp_shares == 0,
        position.preprocess_outcome(slot, amm) is Ok,
    ensures
        position.add_liquidity_outcome(
            slot,
            amm,
            base_amount_desired,
            quote_amount_desired,
            Some(0u64),
        ) == Err::<crate::lp::AddLiquidityResult, PlasmaError>(
            PlasmaError::BelowMinimumLpSharesRequired,
        ),
{
}

/// A transfer into a position that owns shares fails.
pub proof fn lemma_transfer_needs_empty_destination(
    source: LpPosition,
    slot: SlotWindow,
    amm: Amm,
    destination: LpPosition,
)
    requires
        destination.lp_shares != 0,
        source.preprocess_outcome(slot, amm) is Ok,
        destination.preprocess_outcome(slot, amm) is Ok,
    ensures
        source.transfer_liquidity_outcome(slot, amm, destination) == Err::<u64, PlasmaError>(
            PlasmaError::InvariantViolation(destination.lp_shares as u128, 0),
        ),
{
}

/// Minting keeps a pool without shares empty, and takes no more of either
/// asset than was offered.
pub proof fn lemma_mint_keeps_wf(
    amm: Amm,
    slot: SlotWindow,
    base_amount_desired: u64,
    quote_amount_desired: u64,
    initial_lp_shares: Option<u64>,
)
    requires
        amm.mint_outcome(base_amount_desired, quote_amount_desired, initial_lp_shares) is Ok,
    ensures
        ({
            let (base, quote, shares) = amm.mint_outcome(
                base_amount_desired,
                quote_amount_desired,
                initial_lp_shares,
            )->Ok_0;
            &&& shares > 0
            &&& base <= base_amount_desired
            &&& quote <= quote_amount_desired
            &&& amm.wf() ==> amm.minted(slot, base, quote, shares).wf()
            &&& amm.minted(slot, base, quote, shares).reward_factor == amm.reward_factor
        }),
{
    if amm.total_lp_shares != 0 {
        lemma_matched_deposit_within(
            base_amount_desired as int,
            quote_amount_desired as int,
            amm.base_reserves as int,
            amm.quote_reserves as int,
        );
    }
}

/// Burning keeps a pool without shares empty: the last shares take all that
/// is left of both reserves.
pub proof fn lemma_burn_keeps_wf(amm: Amm, slot: SlotWindow, lp_shares: u64)
    requires
        amm.wf(),
        amm.burn_outcome(lp_shares) is Ok,
    ensures
        ({
            let (base, quote) = amm.burn_outcome(lp_shares)->Ok_0;
            &&& base <= amm.base_reserves
            &&& quote <= amm.quote_reserves
            &&& amm.burned(slot, base, quote, lp_shares).wf()
        }),
{
    if lp_shares > 0 {
        let total = amm.total_lp_shares as int;
        lemma_part_within(amm.base_reserves as int, lp_shares as int, total);
        lemma_part_within(amm.quote_reserves as int, lp_shares as int, total);
        if lp_shares == amm.total_lp_shares {
            assert((amm.base_reserves * total) / total == amm.base_reserves) by (nonlinear_arith)
                requires
                    0 < total,
            ;
            assert((amm.quote_reserves * total) / total == amm.quote_reserves)
                by (nonlinear_arith)
                requires
                    0 < total,
            ;
        }
    }
}

/// A swap keeps the pool well formed, keeps its supply of shares, and lets
/// neither the product of its reserves nor its reward factor fall.
pub proof fn lemma_swap_keeps_product(amm: Amm, slot: SlotWindow, side: Side, swap_type: SwapType)
    requires
        amm.wf(),
        amm.swap_outcome(side, swap_type) is Ok,
    ensures
        ({
            let after = amm.swapped(slot, amm.swap_outcome(side, swap_type)->Ok_0);
            &&& after.wf()
            &&& after.total_lp_shares == amm.total_lp_shares
            &&& after.k() >= amm.k()
            &&& after.reward_factor.bits() >= amm.reward_factor.bits()
        }),
{
    let res = amm.swap_outcome(side, swap_type)->Ok_0;
    lemma_trade_admits(amm, side, swap_type);
    let lp_fees = res.fee_in_quote - amm.protocol_part(res.fee_in_quote);
    assert(0 <= lp_fees * ONE_BITS) by (nonlinear_arith)
        requires
            0 <= lp_fees,
            ONE_BITS > 0,
    ;
    lemma_div_is_ordered(0, lp_fees * ONE_BITS, amm.total_lp_shares as int);
}

/// Of a pool that grew by `deposit` for `shares`, where the shares were
/// worth no more than the deposit, the shares buy back no more than the
/// deposit; and all of it exactly where they were worth the whole deposit.
pub proof fn lemma_share_of_grown_pool(reserve: int, supply: int, deposit: int, shares: int)
    requires
        0 <= reserve,
        0 <= supply,
        0 <= deposit,
        0 < shares,
        shares * reserve <= deposit * supply,
    ensures
        ((reserve + deposit) * shares) / (supply + shares) <= deposit,
        shares * reserve == deposit * supply <==> ((reserve + deposit) * shares) / (supply
            + shares) == deposit,
{
    let grown = supply + shares;
    assert((reserve + deposit) * shares <= deposit * grown) by (nonlinear_arith)
        requires
            shares * reserve <= deposit * supply,
            grown == supply + shares,
    ;
    assert((deposit * grown) / grown == deposit) by (nonlinear_arith)
        requires
            0 < grown,
    ;
    lemma_div_is_ordered((reserve + deposit) * shares, deposit * grown, grown);
    if shares * reserve == deposit * supply {
        assert((reserve + deposit) * shares == deposit * grown) by (nonlinear_arith)
            requires
                shares * reserve == deposit * supply,
                grown == supply + shares,
        ;
    } else {
        let back = ((reserve + deposit) * shares) / grown;
        lemma_fundamental_div_mod((reserve + deposit) * shares, grown);
        assert(back < deposit) by (nonlinear_arith)
            requires
                (reserve + deposit) * shares == grown * back + ((reserve + deposit) * shares)
                    % grown,
                0 <= ((reserve + deposit) * shares) % grown,
                shares * reserve < deposit * supply,
                grown == supply + shares,
                0 < grown,
        ;
    }
}

/// The shares minted for a deposit are worth no more than the deposit, in
/// either asset.
pub proof fn lemma_minted_shares_within_deposit(
    amm: Amm,
    base_amount_desired: u64,
    quote_amount_desired: u64,
    initial_lp_shares: Option<u64>,
)
    requires
        amm.wf(),
        amm.mint_outcome(base_amount_desired, quote_amount_desired, initial_lp_shares) is Ok,
    ensures
        ({
            let (base, quote, shares) = amm.mint_outcome(
                base_amount_desired,
                quote_amount_desired,
                initial_lp_shares,
            )->Ok_0;
            &&& shares * amm.base_reserves <= base * amm.total_lp_shares
            &&& shares * amm.quote_reserves <= quote * amm.total_lp_shares
        }),
{
    let (base, quote, shares) = amm.mint_outcome(
        base_amount_desired,
        quote_amount_desired,
        initial_lp_shares,
    )->Ok_0;
    if amm.total_lp_shares == 0 {
        assert(shares * 0 == 0);
        assert(base * 0 == 0);
        assert(quote * 0 == 0);
    } else {
        let total = amm.total_lp_shares as int;
        let total_base = amm.base_reserves as int;
        let total_quote = amm.quote_reserves as int;
        let by_base = (base * total) / total_base;
        let by_quote = (quote * total) / total_quote;
        lemma_fundamental_div_mod(base * total, total_base);
        lemma_fundamental_div_mod(quote * total, total_quote);
        assert(shares * total_base <= base * total) by (nonlinear_arith)
            requires
                base * total == total_base * by_base + (base * total) % total_base,
                0 <= (base * total) % total_base,
                0 <= shares <= by_base,
                0 < total_base,
        ;
        assert(shares * total_quote <= quote * total) by (nonlinear_arith)
            requires
                quote * total == total_quote * by_quote + (quote * total) % total_quote,
                0 <= (quote * total) % total_quote,
                0 <= shares <= by_quote,
                0 < total_quote,
        ;
    }
}

/// Depositing and, once the shares have vested, withdrawing them again with
/// nothing else done to the pool in between never returns more of either
/// asset than was deposited. It returns all of an asset exactly where the
/// shares minted were worth the whole deposit of it, with nothing lost to
/// rounding; a first deposit into an empty pool is such a deposit. The
/// withdrawal fails only where the shares round down to nothing of one
/// asset.
pub proof fn lemma_round_trip_never_gains(
    position: LpPosition,
    amm: Amm,
    slot: SlotWindow,
    later: SlotWindow,
    base_amount_desired: u64,
    quote_amount_desired: u64,
    initial_lp_shares: Option<u64>,
)
    requires
        position.wf(),
        amm.wf(),
        slot + amm.lp_vesting_window <= later,
        position.add_liquidity_outcome(
            slot,
            amm,
            base_amount_desired,
            quote_amount_desired,
            initial_lp_shares,
        ) is Ok,
    ensures
        ({
            let added = position.add_liquidity_outcome(
                slot,
                amm,
                base_amount_desired,
                quote_amount_desired,
                initial_lp_shares,
            )->Ok_0;
            let grown = amm.minted(
                slot,
                added.base_amount_deposited,
                added.quote_amount_deposited,
                added.lp_shares_received,
            );
            match position.after_deposit(
                slot,
                amm,
                added.lp_shares_received,
            ).remove_liquidity_outcome(later, grown, added.lp_shares_received) {
                Ok(removed) => {
                    &&& removed.lp_shares_burned == added.lp_shares_received
                    &&& removed.lp_shares_vested == added.lp_shares_received
                    &&& removed.quote_fees_accumulated == 0
                    &&& 0 < removed.base_amount_withdrawn <= added.base_amount_deposited
                    &&& 0 < removed.quote_amount_withdrawn <= added.quote_amount_deposited
                    &&& added.lp_shares_received * amm.base_reserves == added.base_amount_deposited
                        * amm.total_lp_shares <==> removed.base_amount_withdrawn
                        == added.base_amount_deposited
                    &&& added.lp_shares_received * amm.quote_reserves
                        == added.quote_amount_deposited * amm.total_lp_shares
                        <==> removed.quote_amount_withdrawn == added.quote_amount_deposited
                },
                Err(e) => e is BelowMinimumWithdrawaRequired,
            }
        }),
{
    let added = position.add_liquidity_outcome(
        slot,
        amm,
        base_amount_desired,
        quote_amount_desired,
        initial_lp_shares,
    )->Ok_0;
    let shares = added.lp_shares_received;
    let grown = amm.minted(
        slot,
        added.base_amount_deposited,
        added.quote_amount_deposited,
        shares,
    );
    let holder = position.after_deposit(slot, amm, shares);
    lemma_mint_keeps_wf(amm, slot, base_amount_desired, quote_amount_desired, initial_lp_shares);
    lemma_minted_shares_within_deposit(
        amm,
        base_amount_desired,
        quote_amount_desired,
        initial_lp_shares,
    );
    assert(holder.reward_delta(grown) == 0);
    assert(0 * (holder.lp_shares as int) == 0);
    assert(scaled_floor(0, holder.lp_shares as int) == 0);
    assert(holder.pending_shares_to_vest.matured(later, grown.lp_vesting_window));
    assert(holder.preprocess_outcome(later, grown) == Ok::<(u64, u64), PlasmaError>((shares, 0)));
    lemma_share_of_grown_pool(
        amm.base_reserves as int,
        amm.total_lp_shares as int,
        added.base_amount_deposited as int,
        shares as int,
    );
    lemma_share_of_grown_pool(
        amm.quote_reserves as int,
        amm.total_lp_shares as int,
        added.quote_amount_deposited as int,
        shares as int,
    );
    assert(grown.base_reserves * shares == (amm.base_reserves + added.base_amount_deposited)
        * shares);
    assert(grown.quote_reserves * shares == (amm.quote_reserves + added.quote_amount_deposited)
        * shares);
    lemma_part_within(grown.base_reserves as int, shares as int, grown.total_lp_shares as int);
    lemma_part_within(grown.quote_reserves as int, shares as int, grown.total_lp_shares as int);
}

/// A first provider who deposits, sees a swap, and withdraws every share
/// once it has vested gets back reserves whose product is no smaller than
/// that of the deposit: the swap moves value from one asset to the other, and
/// never out of the pool.
pub proof fn lemma_round_trip_after_swap(
    position: LpPosition,
    amm: Amm,
    slot: SlotWindow,
    swap_slot: SlotWindow,
    later: SlotWindow,
    base_amount_desired: u64,
    quote_amount_desired: u64,
    shares: u64,
    side: Side,
    swap_type: SwapType,
)
    requires
        position.wf(),
        amm.wf(),
        amm.total_lp_shares == 0,
        slot + amm.lp_vesting_window <= later,
        position.add_liquidity_outcome(
            slot,
            amm,
            base_amount_desired,
            quote_amount_desired,
            Some(shares),
        ) is Ok,
        amm.minted(slot, base_amount_desired, quote_amount_desired, shares).swap_outcome(
            side,
            swap_type,
        ) is Ok,
        position.after_deposit(slot, amm, shares).remove_liquidity_outcome(
            later,
            amm.minted(slot, base_amount_desired, quote_amount_desired, shares).swapped(
                swap_slot,
                amm.minted(slot, base_amount_desired, quote_amount_desired, shares).swap_outcome(
                    side,
                    swap_type,
                )->Ok_0,
            ),
            shares,
        ) is Ok,
    ensures
        ({
            let grown = amm.minted(slot, base_amount_desired, quote_amount_desired, shares);
            let traded = grown.swapped(swap_slot, grown.swap_outcome(side, swap_type)->Ok_0);
            let removed = position.after_deposit(slot, amm, shares).remove_liquidity_outcome(
                later,
                traded,
                shares,
            )->Ok_0;
            &&& removed.lp_shares_burned == shares
            &&& removed.base_amount_withdrawn == traded.base_reserves
            &&& removed.quote_amount_withdrawn == traded.quote_reserves
            &&& removed.base_amount_withdrawn * removed.quote_amount_withdrawn
                >= base_amount_desired * quote_amount_desired
        }),
{
    let grown = amm.minted(slot, base_amount_desired, quote_amount_desired, shares);
    let res = grown.swap_outcome(side, swap_type)->Ok_0;
    let traded = grown.swapped(swap_slot, res);
    let holder = position.after_deposit(slot, amm, shares);
    lemma_trade_admits(grown, side, swap_type);
    assert(traded.total_lp_shares == shares);
    assert(holder.pending_shares_to_vest.matured(later, traded.lp_vesting_window));
    assert(shares <= holder.preprocessed(later, traded).withdrawable_lp_shares);
    let supply = shares as int;
    assert((traded.base_reserves * supply) / supply == traded.base_reserves) by (nonlinear_arith)
        requires
            0 < supply,
    ;
    assert((traded.quote_reserves * supply) / supply == traded.quote_reserves)
        by (nonlinear_arith)
        requires
            0 < supply,
    ;
    assert(grown.k() == base_amount_desired * quote_amount_desired);
    assert(traded.k() >= grown.k());
}

/// The fees that a set of positions has earned between their snapshots and
/// the pool's reward factor.
pub open spec fn total_accrual(positions: Seq<LpPosition>, amm: Amm) -> int
    decreases positions.len(),
{
    if positions.len() == 0 {
        0
    } else {
        total_accrual(positions.drop_last(), amm) + positions.last().accrual(amm)
    }
}

/// Positions that all lag the pool's reward factor by `delta` have earned
/// between them no more than `delta` for each of their shares.
pub proof fn lemma_total_accrual_within_delta(positions: Seq<LpPosition>, amm: Amm, delta: int)
    requires
        0 <= delta,
        forall|i: int| 0 <= i < positions.len() ==> positions[i].reward_delta(amm) == delta,
    ensures
        total_accrual(positions, amm) * ONE_BITS <= delta * total_position_shares(positions),
    decreases positions.len(),
{
    if positions.len() > 0 {
        let rest = positions.drop_last();
        let shares = positions.last().lp_shares as int;
        let earned = positions.last().accrual(amm);
        assert forall|i: int| 0 <= i < rest.len() implies rest[i].reward_delta(amm) == delta by {
            assert(rest[i] == positions[i]);
        }
        lemma_total_accrual_within_delta(rest, amm, delta);
        lemma_fundamental_div_mod(delta * shares, ONE_BITS as int);
        assert((total_accrual(rest, amm) + earned) * ONE_BITS <= delta * (total_position_shares(
            rest,
        ) + shares)) by (nonlinear_arith)
            requires
                total_accrual(rest, amm) * ONE_BITS <= delta * total_position_shares(rest),
                delta * shares == ONE_BITS * earned + (delta * shares) % (ONE_BITS as int),
                0 <= (delta * shares) % (ONE_BITS as int),
        ;
    } else {
        assert(0 * ONE_BITS == 0);
        assert(delta * 0 == 0);
    }
}

/// No fee is paid out twice: positions that own the supply of shares between
/// them, and were up to date before a swap, earn from the swap between them
/// no more than the providers' part of its fee.
pub proof fn lemma_swap_fee_covers_accruals(
    positions: Seq<LpPosition>,
    amm: Amm,
    slot: SlotWindow,
    side: Side,
    swap_type: SwapType,
)
    requires
        amm.swap_outcome(side, swap_type) is Ok,
        total_position_shares(positions) == amm.total_lp_shares,
        forall|i: int|
            0 <= i < positions.len() ==> positions[i].reward_factor_snapshot == amm.reward_factor,
    ensures
        ({
            let res = amm.swap_outcome(side, swap_type)->Ok_0;
            total_accrual(positions, amm.swapped(slot, res)) <= res.fee_in_quote
                - amm.protocol_part(res.fee_in_quote)
        }),
{
    let res = amm.swap_outcome(side, swap_type)->Ok_0;
    let after = amm.swapped(slot, res);
    let lp_fees = res.fee_in_quote - amm.protocol_part(res.fee_in_quote);
    let supply = amm.total_lp_shares as int;
    let step = amm.reward_step(res.fee_in_quote);
    assert(0 <= lp_fees * ONE_BITS) by (nonlinear_arith)
        requires
            0 <= lp_fees,
            ONE_BITS > 0,
    ;
    lemma_div_is_ordered(0, lp_fees * ONE_BITS, supply);
    assert(after.reward_factor.bits() == amm.reward_factor.bits() + step);
    assert forall|i: int| 0 <= i < positions.len() implies positions[i].reward_delta(after)
        == step by {}
    lemma_total_accrual_within_delta(positions, after, step);
    lemma_fundamental_div_mod(lp_fees * ONE_BITS, supply);
    let earned = total_accrual(positions, after);
    assert(earned <= lp_fees) by (nonlinear_arith)
        requires
            earned * ONE_BITS <= step * supply,
            lp_fees * ONE_BITS == supply * step + (lp_fees * ONE_BITS) % supply,
            0 <= (lp_fees * ONE_BITS) % supply,
            ONE_BITS > 0,
    ;
}

} // verus!
