use plasma_amm_sdk::amm::{Amm, Side};
use plasma_amm_sdk::errors::PlasmaError;
use plasma_amm_sdk::fixed::I80F48;
use plasma_amm_sdk::instructions::SwapType;
use plasma_amm_sdk::lp::{AddLiquidityResult, LpPosition, PendingSharesToVest, RemoveLiquidityResult};

fn fresh() -> (LpPosition, Amm) {
    (LpPosition::new_with_reward_factor_snapshot(I80F48::zero()), Amm::new(30, 10, 100, 0))
}

fn bootstrapped() -> (LpPosition, Amm) {
    let (mut position, mut amm) = fresh();
    position.add_liquidity(5, &mut amm, 1_000_000, 1_000_000, Some(1_000_000)).unwrap();
    (position, amm)
}

fn holds_together(position: &LpPosition) -> bool {
    position.withdrawable_lp_shares as u128 + position.pending_shares_to_vest.lp_shares_to_vest as u128
        == position.lp_shares as u128
}

#[test]
fn a_new_position_is_empty() {
    let position = LpPosition::new_with_reward_factor_snapshot(I80F48::from_num(3));
    assert!(position.is_empty());
    assert_eq!(position.reward_factor_snapshot, I80F48::from_num(3));
    assert_eq!((position.lp_shares, position.withdrawable_lp_shares), (0, 0));
    assert_eq!((position.uncollected_fees, position.collected_fees), (0, 0));
    assert!(!position.pending_shares_to_vest.is_vesting());
}

#[test]
fn pending_shares_vest_when_their_window_has_passed() {
    let amm = Amm::new(30, 10, 100, 0);
    let mut pending = PendingSharesToVest::new();
    assert!(!pending.is_vesting());
    assert_eq!(pending.maybe_vest_shares(1_000, &amm), 0);
    assert_eq!(pending.set(5, 10), Ok(()));
    assert!(pending.is_vesting());
    assert_eq!((pending.deposit_slot, pending.lp_shares_to_vest), (5, 10));
    assert_eq!(pending.set(6, 20), Err(PlasmaError::VestingPeriodNotOver));
    assert_eq!((pending.deposit_slot, pending.lp_shares_to_vest), (5, 10));
    assert_eq!(pending.maybe_vest_shares(104, &amm), 0);
    assert!(pending.is_vesting());
    assert_eq!(pending.maybe_vest_shares(105, &amm), 10);
    assert!(!pending.is_vesting());
    assert_eq!(pending.maybe_vest_shares(105, &amm), 0);
    assert_eq!(pending.set(6, 20), Ok(()));
    assert_eq!(pending.force_vest_shares(), 20);
    assert_eq!((pending.deposit_slot, pending.lp_shares_to_vest), (0, 0));
}

#[test]
fn a_batch_deposited_in_slot_zero_is_a_batch() {
    let amm = Amm::new(30, 10, 100, 0);
    let mut pending = PendingSharesToVest::new();
    assert_eq!(pending.set(0, 10), Ok(()));
    assert!(pending.is_vesting());
    assert_eq!(pending.set(0, 20), Err(PlasmaError::VestingPeriodNotOver));
    assert_eq!(pending.maybe_vest_shares(99, &amm), 0);
    assert_eq!(pending.maybe_vest_shares(100, &amm), 10);
}

#[test]
fn a_window_beyond_the_last_slot_never_passes() {
    let amm = Amm::new(30, 10, 100, 0);
    let mut pending = PendingSharesToVest { deposit_slot: u64::MAX, lp_shares_to_vest: 7 };
    assert_eq!(pending.maybe_vest_shares(u64::MAX, &amm), 0);
    assert!(pending.is_vesting());
}

#[test]
fn bootstrap_yields_the_named_shares() {
    let (mut position, mut amm) = fresh();
    let res = position.add_liquidity(5, &mut amm, 1_000_000, 1_000_000, Some(1_000_000));
    assert_eq!(
        res,
        Ok(AddLiquidityResult {
            base_amount_deposited: 1_000_000,
            quote_amount_deposited: 1_000_000,
            lp_shares_received: 1_000_000,
            lp_shares_vested: 0,
            quote_fees_accumulated: 0,
        })
    );
    assert_eq!((amm.base_reserves, amm.quote_reserves), (1_000_000, 1_000_000));
    assert_eq!(amm.total_lp_shares, 1_000_000);
    assert_eq!(position.lp_shares, 1_000_000);
    assert_eq!(position.withdrawable_lp_shares, 0);
    assert_eq!(
        position.pending_shares_to_vest,
        PendingSharesToVest { deposit_slot: 5, lp_shares_to_vest: 1_000_000 }
    );
    assert!(holds_together(&position));
}

#[test]
fn bootstrap_without_shares_fails() {
    let (mut position, mut amm) = fresh();
    let (position_before, amm_before) = (position, amm);
    assert_eq!(
        position.add_liquidity(5, &mut amm, 1_000_000, 1_000_000, Some(0)),
        Err(PlasmaError::BelowMinimumLpSharesRequired)
    );
    assert_eq!(
        position.add_liquidity(5, &mut amm, 0, 0, Some(0)),
        Err(PlasmaError::BelowMinimumLpSharesRequired)
    );
    assert_eq!(
        position.add_liquidity(5, &mut amm, 1, 1, None),
        Err(PlasmaError::MissingExpectedArgument)
    );
    assert_eq!((position, amm), (position_before, amm_before));
}

#[test]
fn asking_for_more_than_is_withdrawable_is_no_fault() {
    let (mut position, mut amm) = bootstrapped();
    let amm_before = amm;
    assert_eq!(
        position.remove_liquidity(6, &mut amm, 10),
        Ok(RemoveLiquidityResult {
            base_amount_withdrawn: 0,
            quote_amount_withdrawn: 0,
            lp_shares_burned: 0,
            lp_shares_vested: 0,
            quote_fees_accumulated: 0,
        })
    );
    assert_eq!(amm, amm_before);
    assert_eq!(position.lp_shares, 1_000_000);
    assert_eq!(
        position.remove_liquidity(105, &mut amm, 1_000_001),
        Ok(RemoveLiquidityResult {
            base_amount_withdrawn: 0,
            quote_amount_withdrawn: 0,
            lp_shares_burned: 0,
            lp_shares_vested: 1_000_000,
            quote_fees_accumulated: 0,
        })
    );
    assert_eq!(amm, amm_before);
    assert_eq!(position.withdrawable_lp_shares, 1_000_000);
    assert!(!position.pending_shares_to_vest.is_vesting());
    assert!(holds_together(&position));
}

#[test]
fn only_one_batch_vests_at_a_time() {
    let (mut position, mut amm) = bootstrapped();
    let (position_before, amm_before) = (position, amm);
    assert_eq!(
        position.add_liquidity(50, &mut amm, 10, 10, None),
        Err(PlasmaError::VestingPeriodNotOver)
    );
    assert_eq!((position, amm), (position_before, amm_before));
    assert_eq!(
        position.add_liquidity(105, &mut amm, 10, 10, None),
        Ok(AddLiquidityResult {
            base_amount_deposited: 10,
            quote_amount_deposited: 10,
            lp_shares_received: 10,
            lp_shares_vested: 1_000_000,
            quote_fees_accumulated: 0,
        })
    );
    assert_eq!(position.lp_shares, 1_000_010);
    assert_eq!(position.withdrawable_lp_shares, 1_000_000);
    assert_eq!(
        position.pending_shares_to_vest,
        PendingSharesToVest { deposit_slot: 105, lp_shares_to_vest: 10 }
    );
    assert_eq!(amm.total_lp_shares, 1_000_010);
    assert!(holds_together(&position));
}

#[test]
fn a_round_trip_returns_the_first_deposit() {
    let (mut position, mut amm) = bootstrapped();
    assert_eq!(
        position.remove_liquidity(105, &mut amm, 1_000_000),
        Ok(RemoveLiquidityResult {
            base_amount_withdrawn: 1_000_000,
            quote_amount_withdrawn: 1_000_000,
            lp_shares_burned: 1_000_000,
            lp_shares_vested: 1_000_000,
            quote_fees_accumulated: 0,
        })
    );
    assert!(position.is_empty());
    assert_eq!(position.withdrawable_lp_shares, 0);
    assert_eq!((amm.base_reserves, amm.quote_reserves, amm.total_lp_shares), (0, 0, 0));
}

#[test]
fn a_round_trip_returns_a_proportional_deposit() {
    let (_, mut amm) = bootstrapped();
    let mut second = LpPosition::new_with_reward_factor_snapshot(amm.reward_factor);
    let added = second.add_liquidity(6, &mut amm, 500, 900, None).unwrap();
    assert_eq!(
        (added.base_amount_deposited, added.quote_amount_deposited, added.lp_shares_received),
        (500, 500, 500)
    );
    let removed = second.remove_liquidity(106, &mut amm, 500).unwrap();
    assert_eq!((removed.base_amount_withdrawn, removed.quote_amount_withdrawn), (500, 500));
    assert_eq!(removed.lp_shares_burned, 500);
    assert_eq!(amm.total_lp_shares, 1_000_000);
}

#[test]
fn a_round_trip_never_returns_more_than_the_deposit() {
    let mut amm = Amm::new(30, 10, 100, 0);
    amm.base_reserves = 10;
    amm.quote_reserves = 10;
    amm.total_lp_shares = 3;
    let mut position = LpPosition::new_with_reward_factor_snapshot(I80F48::zero());
    let added = position.add_liquidity(1, &mut amm, 5, 5, None).unwrap();
    assert_eq!(
        (added.base_amount_deposited, added.quote_amount_deposited, added.lp_shares_received),
        (5, 5, 1)
    );
    let removed = position.remove_liquidity(101, &mut amm, 1).unwrap();
    assert_eq!((removed.base_amount_withdrawn, removed.quote_amount_withdrawn), (3, 3));
    assert_eq!((amm.base_reserves, amm.quote_reserves, amm.total_lp_shares), (12, 12, 3));
}

#[test]
fn removing_nothing_is_allowed() {
    let (mut position, mut amm) = bootstrapped();
    let res = position.remove_liquidity(6, &mut amm, 0).unwrap();
    assert_eq!((res.base_amount_withdrawn, res.quote_amount_withdrawn, res.lp_shares_burned), (0, 0, 0));
    assert_eq!(position.lp_shares, 1_000_000);
    assert_eq!(amm.total_lp_shares, 1_000_000);
}

#[test]
fn a_withdrawal_below_the_minimum_fails_and_changes_nothing() {
    let mut amm = Amm::new(30, 10, 0, 0);
    let mut position = LpPosition::new_with_reward_factor_snapshot(I80F48::zero());
    position.add_liquidity(1, &mut amm, 1, 1_000, Some(10)).unwrap();
    let (position_before, amm_before) = (position, amm);
    assert_eq!(
        position.remove_liquidity(2, &mut amm, 1),
        Err(PlasmaError::BelowMinimumWithdrawaRequired {
            quote_amount_to_withdraw: 100,
            base_amount_to_withdraw: 0,
        })
    );
    assert_eq!((position, amm), (position_before, amm_before));
}

#[test]
fn fees_accrue_by_the_share() {
    let (mut position, mut amm) = bootstrapped();
    amm.swap(6, Side::Buy, SwapType::ExactIn { amount_in: 10_000, min_amount_out: 0 }).unwrap();
    assert_eq!(amm.reward_factor.to_bits(), 7599824371);
    assert_eq!(position.preprocess_lp_position(6, &amm), Ok((0, 26)));
    assert_eq!(position.uncollected_fees, 26);
    assert_eq!(position.reward_factor_snapshot, amm.reward_factor);
    assert_eq!(position.lp_shares, 1_000_000);
}

#[test]
fn fees_never_exceed_what_was_collected_from_traders() {
    let (mut first, mut amm) = fresh();
    first.add_liquidity(1, &mut amm, 600_000, 600_000, Some(600_000)).unwrap();
    let mut second = LpPosition::new_with_reward_factor_snapshot(amm.reward_factor);
    let added = second.add_liquidity(1, &mut amm, 400_000, 400_000, None).unwrap();
    assert_eq!(added.lp_shares_received, 400_000);
    amm.swap(2, Side::Buy, SwapType::ExactIn { amount_in: 10_000, min_amount_out: 0 }).unwrap();
    assert_eq!(first.collect_fees(2, &amm), Ok(16));
    assert_eq!(second.collect_fees(2, &amm), Ok(10));
    assert!(16 + 10 <= amm.cumulative_quote_lp_fees);
    assert_eq!(first.lp_shares + second.lp_shares, amm.total_lp_shares);
}

#[test]
fn preprocessing_twice_accrues_nothing_more() {
    let (mut position, mut amm) = bootstrapped();
    amm.swap(6, Side::Buy, SwapType::ExactIn { amount_in: 10_000, min_amount_out: 0 }).unwrap();
    assert_eq!(position.preprocess_lp_position(105, &amm), Ok((1_000_000, 26)));
    let once = position;
    assert_eq!(position.preprocess_lp_position(105, &amm), Ok((0, 0)));
    assert_eq!(position, once);
}

#[test]
fn collecting_twice_collects_nothing_more() {
    let (mut position, mut amm) = bootstrapped();
    amm.swap(6, Side::Buy, SwapType::ExactIn { amount_in: 10_000, min_amount_out: 0 }).unwrap();
    assert_eq!(position.collect_fees(7, &amm), Ok(26));
    assert_eq!((position.uncollected_fees, position.collected_fees), (0, 26));
    let once = position;
    assert_eq!(position.collect_fees(7, &amm), Ok(0));
    assert_eq!(position, once);
    amm.swap(8, Side::Sell, SwapType::ExactIn { amount_in: 10_000, min_amount_out: 0 }).unwrap();
    let more = position.collect_fees(8, &amm).unwrap();
    assert_eq!(position.collected_fees, 26 + more);
}

#[test]
fn a_snapshot_ahead_of_the_pool_is_an_overflow() {
    let (_, amm) = bootstrapped();
    let mut position = LpPosition::new_with_reward_factor_snapshot(I80F48::from_num(1));
    let before = position;
    assert_eq!(position.preprocess_lp_position(6, &amm), Err(PlasmaError::Overflow));
    assert_eq!(position.collect_fees(6, &amm), Err(PlasmaError::Overflow));
    assert_eq!(position, before);
}

#[test]
fn accrual_that_does_not_fit_is_an_overflow() {
    let (mut position, mut amm) = bootstrapped();
    amm.reward_factor = I80F48::from_num(u64::MAX);
    let before = position;
    assert_eq!(position.preprocess_lp_position(6, &amm), Err(PlasmaError::Overflow));
    assert_eq!(position, before);
    amm.reward_factor = I80F48::from_num(1);
    position.uncollected_fees = u64::MAX;
    assert_eq!(position.preprocess_lp_position(6, &amm), Err(PlasmaError::Overflow));
    position.uncollected_fees = 0;
    position.collected_fees = u64::MAX;
    assert_eq!(position.collect_fees(6, &amm), Err(PlasmaError::Overflow));
    assert_eq!(position.preprocess_lp_position(6, &amm), Ok((0, 1_000_000)));
}

#[test]
fn transfer_into_a_position_with_shares_fails() {
    let (mut source, mut amm) = bootstrapped();
    let mut destination = LpPosition::new_with_reward_factor_snapshot(amm.reward_factor);
    destination.add_liquidity(105, &mut amm, 700, 700, None).unwrap();
    let (source_before, destination_before, amm_before) = (source, destination, amm);
    assert_eq!(
        source.transfer_liquidity(300, &amm, &mut destination),
        Err(PlasmaError::InvariantViolation(700, 0))
    );
    assert_eq!(source, source_before);
    assert_eq!(destination, destination_before);
    assert_eq!(amm, amm_before);
}

#[test]
fn transfer_moves_every_share_and_restarts_the_clock() {
    let (mut source, amm) = bootstrapped();
    let mut destination = LpPosition::new_with_reward_factor_snapshot(I80F48::zero());
    assert_eq!(source.transfer_liquidity(7, &amm, &mut destination), Ok(1_000_000));
    assert!(source.is_empty());
    assert_eq!(source.withdrawable_lp_shares, 0);
    assert!(!source.pending_shares_to_vest.is_vesting());
    assert_eq!(destination.lp_shares, 1_000_000);
    assert_eq!(destination.withdrawable_lp_shares, 0);
    assert_eq!(
        destination.pending_shares_to_vest,
        PendingSharesToVest { deposit_slot: 7, lp_shares_to_vest: 1_000_000 }
    );
    assert_eq!(source.lp_shares + destination.lp_shares, amm.total_lp_shares);
    assert!(holds_together(&source) && holds_together(&destination));
}

#[test]
fn transfer_keeps_the_fees_with_the_source() {
    let (mut source, mut amm) = bootstrapped();
    amm.swap(6, Side::Buy, SwapType::ExactIn { amount_in: 10_000, min_amount_out: 0 }).unwrap();
    let mut destination = LpPosition::new_with_reward_factor_snapshot(I80F48::zero());
    assert_eq!(source.transfer_liquidity(7, &amm, &mut destination), Ok(1_000_000));
    assert_eq!(source.uncollected_fees, 26);
    assert_eq!(destination.uncollected_fees, 0);
    assert_eq!(destination.reward_factor_snapshot, amm.reward_factor);
}

#[test]
fn transfer_from_a_position_that_does_not_add_up_fails() {
    let (mut source, amm) = bootstrapped();
    source.withdrawable_lp_shares = 5;
    let mut destination = LpPosition::new_with_reward_factor_snapshot(I80F48::zero());
    let (source_before, destination_before) = (source, destination);
    assert_eq!(
        source.transfer_liquidity(7, &amm, &mut destination),
        Err(PlasmaError::InvariantViolation(1_000_005, 1_000_000))
    );
    assert_eq!((source, destination), (source_before, destination_before));
}

#[test]
fn withdrawable_amounts_are_the_shares_part_of_the_reserves() {
    let mut amm = Amm::new(30, 10, 100, 0);
    amm.base_reserves = 1_000;
    amm.quote_reserves = 2_000;
    amm.total_lp_shares = 500;
    let mut position = LpPosition::new_with_reward_factor_snapshot(I80F48::zero());
    position.lp_shares = 50;
    position.withdrawable_lp_shares = 50;
    assert_eq!(position.get_withdrawable_base_and_quote_amounts(&amm), (100, 200));
    position.withdrawable_lp_shares = 1;
    assert_eq!(position.get_withdrawable_base_and_quote_amounts(&amm), (2, 4));
    position.withdrawable_lp_shares = 0;
    assert_eq!(position.get_withdrawable_base_and_quote_amounts(&amm), (0, 0));
}

#[test]
fn shares_of_all_positions_add_up_to_the_supply() {
    let (mut first, mut amm) = fresh();
    let mut second = LpPosition::new_with_reward_factor_snapshot(I80F48::zero());
    let mut third = LpPosition::new_with_reward_factor_snapshot(I80F48::zero());
    let total = |a: &LpPosition, b: &LpPosition, c: &LpPosition| a.lp_shares + b.lp_shares + c.lp_shares;
    first.add_liquidity(1, &mut amm, 5_000, 20_000, Some(10_000)).unwrap();
    assert_eq!(total(&first, &second, &third), amm.total_lp_shares);
    second.add_liquidity(2, &mut amm, 777, 10_000, None).unwrap();
    assert_eq!(total(&first, &second, &third), amm.total_lp_shares);
    amm.swap(3, Side::Sell, SwapType::ExactIn { amount_in: 100, min_amount_out: 0 }).unwrap();
    assert_eq!(total(&first, &second, &third), amm.total_lp_shares);
    first.remove_liquidity(150, &mut amm, 3_333).unwrap();
    assert_eq!(first.lp_shares, 6_667);
    assert_eq!(total(&first, &second, &third), amm.total_lp_shares);
    second.transfer_liquidity(151, &amm, &mut third).unwrap();
    assert_eq!(total(&first, &second, &third), amm.total_lp_shares);
    first.collect_fees(152, &amm).unwrap();
    third.remove_liquidity(300, &mut amm, 500).unwrap();
    assert_eq!(third.lp_shares, 1_054);
    assert_eq!(total(&first, &second, &third), amm.total_lp_shares);
    assert!(holds_together(&first) && holds_together(&second) && holds_together(&third));
}

#[test]
fn a_round_trip_across_a_swap_keeps_the_product() {
    let (mut position, mut amm) = bootstrapped();
    amm.swap(6, Side::Buy, SwapType::ExactIn { amount_in: 10_000, min_amount_out: 0 }).unwrap();
    assert_eq!(
        position.remove_liquidity(105, &mut amm, 1_000_000),
        Ok(RemoveLiquidityResult {
            base_amount_withdrawn: 990_129,
            quote_amount_withdrawn: 1_009_970,
            lp_shares_burned: 1_000_000,
            lp_shares_vested: 1_000_000,
            quote_fees_accumulated: 26,
        })
    );
    assert!(990_129u128 * 1_009_970 >= 1_000_000u128 * 1_000_000);
    assert_eq!((amm.base_reserves, amm.quote_reserves, amm.total_lp_shares), (0, 0, 0));
    assert_eq!(position.uncollected_fees, 26);
}
