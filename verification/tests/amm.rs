use plasma_amm_sdk::amm::{Amm, Side, SwapResult, BPS_BASE};
use plasma_amm_sdk::errors::PlasmaError;
use plasma_amm_sdk::fixed::I80F48;
use plasma_amm_sdk::instructions::SwapType;

fn pool(base: u64, quote: u64, shares: u64) -> Amm {
    let mut amm = Amm::new(30, 10, 100, 0);
    amm.base_reserves = base;
    amm.quote_reserves = quote;
    amm.total_lp_shares = shares;
    amm
}

#[test]
fn a_new_pool_is_empty() {
    let amm = Amm::new(30, 10, 100, 7);
    assert_eq!(amm.fee_in_bps, 30);
    assert_eq!(amm.protocol_allocation_in_pct, 10);
    assert_eq!(amm.lp_vesting_window, 100);
    assert_eq!(amm.get_slot(), 7);
    assert_eq!(amm.reward_factor, I80F48::zero());
    assert_eq!((amm.base_reserves, amm.quote_reserves, amm.total_lp_shares), (0, 0, 0));
    assert_eq!(BPS_BASE, 10000);
}

#[test]
fn first_deposit_goes_in_whole() {
    let mut amm = Amm::new(30, 10, 100, 0);
    assert_eq!(amm.mint(5, 1_000_000, 1_000_000, Some(1_000_000)), Ok((1_000_000, 1_000_000, 1_000_000)));
    assert_eq!((amm.base_reserves, amm.quote_reserves, amm.total_lp_shares), (1_000_000, 1_000_000, 1_000_000));
    assert_eq!(amm.slot_snapshot, 5);
    let mut amm = Amm::new(30, 10, 100, 0);
    assert_eq!(amm.mint(5, 3, 700, Some(42)), Ok((3, 700, 42)));
}

#[test]
fn first_deposit_must_name_its_shares() {
    let mut amm = Amm::new(30, 10, 100, 0);
    let before = amm;
    assert_eq!(amm.mint(5, 10, 10, None), Err(PlasmaError::MissingExpectedArgument));
    assert_eq!(amm.mint(5, 10, 10, Some(0)), Err(PlasmaError::BelowMinimumLpSharesRequired));
    assert_eq!(amm.mint(5, 0, 0, Some(0)), Err(PlasmaError::BelowMinimumLpSharesRequired));
    assert_eq!(amm, before);
}

#[test]
fn later_deposits_keep_the_ratio() {
    let mut amm = pool(1000, 2000, 500);
    assert_eq!(amm.mint(1, 100, 300, None), Ok((100, 200, 50)));
    assert_eq!((amm.base_reserves, amm.quote_reserves, amm.total_lp_shares), (1100, 2200, 550));
    let mut amm = pool(1000, 2000, 500);
    assert_eq!(amm.mint(1, 100, 100, None), Ok((50, 100, 25)));
    assert_eq!((amm.base_reserves, amm.quote_reserves, amm.total_lp_shares), (1050, 2100, 525));
}

#[test]
fn later_deposits_name_no_shares() {
    let mut amm = pool(1000, 2000, 500);
    let before = amm;
    assert_eq!(amm.mint(1, 100, 300, Some(50)), Err(PlasmaError::UnexpectedArgument));
    assert_eq!(amm, before);
}

#[test]
fn a_deposit_worth_no_share_fails() {
    let mut amm = pool(3, 7, 5);
    let before = amm;
    assert_eq!(amm.mint(1, 2, 2, None), Err(PlasmaError::BelowMinimumLpSharesRequired));
    assert_eq!(amm.mint(1, 0, 0, None), Err(PlasmaError::BelowMinimumLpSharesRequired));
    assert_eq!(amm, before);
}

#[test]
fn a_deposit_that_overflows_fails() {
    let mut amm = pool(1, 1, u64::MAX);
    assert_eq!(amm.mint(1, 1, 1, None), Err(PlasmaError::Overflow));
    let mut amm = pool(u64::MAX, u64::MAX, 10);
    assert_eq!(amm.mint(1, u64::MAX, u64::MAX, None), Err(PlasmaError::Overflow));
    let mut amm = pool(0, 5, 5);
    assert_eq!(amm.mint(1, 1, 1, None), Err(PlasmaError::UninitializedPool));
}

#[test]
fn the_snapshot_follows_the_slot() {
    let mut amm = pool(1000, 2000, 500);
    amm.slot_snapshot = 10;
    assert!(!amm.maybe_update_snapshot(10));
    assert_eq!((amm.base_reserves_snapshot, amm.quote_reserves_snapshot), (0, 0));
    assert!(amm.maybe_update_snapshot(11));
    assert_eq!((amm.slot_snapshot, amm.base_reserves_snapshot, amm.quote_reserves_snapshot), (11, 1000, 2000));
    amm.mint(12, 100, 300, None).unwrap();
    assert_eq!((amm.slot_snapshot, amm.base_reserves_snapshot, amm.quote_reserves_snapshot), (12, 1000, 2000));
    amm.burn(12, 50).unwrap();
    assert_eq!((amm.slot_snapshot, amm.base_reserves_snapshot, amm.quote_reserves_snapshot), (12, 1000, 2000));
}

#[test]
fn burning_withdraws_the_shares_part() {
    let mut amm = pool(1000, 2000, 500);
    assert_eq!(amm.burn(1, 50), Ok((100, 200)));
    assert_eq!((amm.base_reserves, amm.quote_reserves, amm.total_lp_shares), (900, 1800, 450));
    assert_eq!(amm.burn(1, 450), Ok((900, 1800)));
    assert_eq!((amm.base_reserves, amm.quote_reserves, amm.total_lp_shares), (0, 0, 0));
    let mut amm = pool(10, 10, 3);
    assert_eq!(amm.burn(1, 1), Ok((3, 3)));
    assert_eq!((amm.base_reserves, amm.quote_reserves, amm.total_lp_shares), (7, 7, 2));
}

#[test]
fn burning_nothing_withdraws_nothing() {
    let mut amm = pool(1000, 2000, 500);
    assert_eq!(amm.burn(1, 0), Ok((0, 0)));
    assert_eq!((amm.base_reserves, amm.quote_reserves, amm.total_lp_shares), (1000, 2000, 500));
    let mut amm = Amm::new(30, 10, 100, 0);
    assert_eq!(amm.burn(1, 0), Ok((0, 0)));
}

#[test]
fn burning_fails_below_the_minimum() {
    let mut amm = pool(1, 1000, 10);
    let before = amm;
    assert_eq!(
        amm.burn(1, 1),
        Err(PlasmaError::BelowMinimumWithdrawaRequired {
            quote_amount_to_withdraw: 100,
            base_amount_to_withdraw: 0,
        })
    );
    assert_eq!(amm.burn(1, 11), Err(PlasmaError::TooManyShares));
    assert_eq!(amm, before);
}

fn trading() -> Amm {
    pool(1_000_000, 1_000_000, 1_000_000)
}

#[test]
fn buying_for_a_fixed_payment() {
    let mut amm = trading();
    let res = amm
        .swap(3, Side::Buy, SwapType::ExactIn { amount_in: 10_000, min_amount_out: 9_871 })
        .unwrap();
    assert_eq!(
        res,
        SwapResult {
            side: Side::Buy,
            base_amount_to_transfer: 9_871,
            quote_amount_to_transfer: 10_000,
            base_matched_as_limit_order: 0,
            quote_matched_as_limit_order: 0,
            base_matched_as_swap: 9_871,
            quote_matched_as_swap: 9_970,
            fee_in_quote: 30,
        }
    );
    assert_eq!((amm.base_reserves, amm.quote_reserves), (990_129, 1_009_970));
    assert_eq!(amm.total_lp_shares, 1_000_000);
    assert_eq!((amm.cumulative_quote_lp_fees, amm.cumulative_quote_protocol_fees), (27, 3));
    assert_eq!(amm.reward_factor.to_bits(), 7599824371);
    assert_eq!((amm.slot_snapshot, amm.base_reserves_snapshot, amm.quote_reserves_snapshot), (3, 1_000_000, 1_000_000));
    assert!(amm.base_reserves as u128 * amm.quote_reserves as u128 >= 1_000_000_000_000);
}

#[test]
fn buying_a_fixed_amount() {
    let mut amm = trading();
    let res = amm
        .swap(3, Side::Buy, SwapType::ExactOut { amount_out: 5_000, max_amount_in: 5_041 })
        .unwrap();
    assert_eq!(
        (res.base_amount_to_transfer, res.quote_amount_to_transfer, res.base_matched_as_swap, res.quote_matched_as_swap, res.fee_in_quote),
        (5_000, 5_041, 5_000, 5_026, 15)
    );
    assert_eq!((amm.base_reserves, amm.quote_reserves), (995_000, 1_005_026));
    assert_eq!((amm.cumulative_quote_lp_fees, amm.cumulative_quote_protocol_fees), (14, 1));
}

#[test]
fn selling_a_fixed_amount() {
    let mut amm = trading();
    let res = amm
        .swap(3, Side::Sell, SwapType::ExactIn { amount_in: 10_000, min_amount_out: 0 })
        .unwrap();
    assert_eq!(
        (res.side, res.base_amount_to_transfer, res.quote_amount_to_transfer, res.base_matched_as_swap, res.quote_matched_as_swap, res.fee_in_quote),
        (Side::Sell, 10_000, 9_871, 10_000, 9_900, 29)
    );
    assert_eq!((amm.base_reserves, amm.quote_reserves), (1_010_000, 990_100));
    assert_eq!((amm.cumulative_quote_lp_fees, amm.cumulative_quote_protocol_fees), (27, 2));
}

#[test]
fn selling_for_fixed_proceeds() {
    let mut amm = trading();
    let res = amm
        .swap(3, Side::Sell, SwapType::ExactOut { amount_out: 5_000, max_amount_in: 5_041 })
        .unwrap();
    assert_eq!(
        (res.base_amount_to_transfer, res.quote_amount_to_transfer, res.base_matched_as_swap, res.quote_matched_as_swap, res.fee_in_quote),
        (5_041, 5_000, 5_041, 5_015, 15)
    );
    assert_eq!((amm.base_reserves, amm.quote_reserves), (1_005_041, 994_985));
}

#[test]
fn a_swap_that_misses_its_bound_fails() {
    let mut amm = trading();
    let before = amm;
    assert_eq!(
        amm.swap(3, Side::Buy, SwapType::ExactIn { amount_in: 10_000, min_amount_out: 9_872 }),
        Err(PlasmaError::SwapExactInTooLarge)
    );
    assert_eq!(
        amm.swap(3, Side::Buy, SwapType::ExactOut { amount_out: 5_000, max_amount_in: 5_040 }),
        Err(PlasmaError::SwapExactOutTooLarge)
    );
    assert_eq!(
        amm.swap(3, Side::Sell, SwapType::ExactIn { amount_in: 10_000, min_amount_out: 9_872 }),
        Err(PlasmaError::SwapExactInTooLarge)
    );
    assert_eq!(
        amm.swap(3, Side::Sell, SwapType::ExactOut { amount_out: 5_000, max_amount_in: 5_040 }),
        Err(PlasmaError::SwapExactOutTooLarge)
    );
    assert_eq!(amm, before);
}

#[test]
fn a_swap_cannot_drain_a_reserve() {
    let mut amm = trading();
    let before = amm;
    assert_eq!(
        amm.swap(3, Side::Buy, SwapType::ExactOut { amount_out: 1_000_000, max_amount_in: u64::MAX }),
        Err(PlasmaError::SwapOutputGreaterThanOrEqualToReserves(1_000_000, 1_000_000))
    );
    assert_eq!(
        amm.swap(3, Side::Sell, SwapType::ExactOut { amount_out: 997_000, max_amount_in: u64::MAX }),
        Err(PlasmaError::SwapOutputGreaterThanOrEqualToReserves(1_000_000, 1_000_000))
    );
    assert_eq!(amm, before);
}

#[test]
fn a_pool_without_shares_does_not_trade() {
    let mut amm = Amm::new(30, 10, 100, 0);
    assert_eq!(
        amm.swap(3, Side::Buy, SwapType::ExactIn { amount_in: 10, min_amount_out: 0 }),
        Err(PlasmaError::UninitializedPool)
    );
    let mut amm = pool(0, 10, 10);
    assert_eq!(
        amm.simulate_swap(Side::Sell, SwapType::ExactIn { amount_in: 10, min_amount_out: 0 }),
        Err(PlasmaError::UninitializedPool)
    );
    assert_eq!(
        amm.swap(3, Side::Sell, SwapType::ExactIn { amount_in: 10, min_amount_out: 0 }),
        Err(PlasmaError::UninitializedPool)
    );
}

#[test]
fn a_swap_of_nothing_moves_nothing() {
    let mut amm = trading();
    let res = amm.swap(3, Side::Buy, SwapType::ExactIn { amount_in: 0, min_amount_out: 0 }).unwrap();
    assert_eq!(res, SwapResult::new_empty_with_side(Side::Buy));
    assert_eq!((amm.base_reserves, amm.quote_reserves), (1_000_000, 1_000_000));
    assert_eq!(amm.reward_factor, I80F48::zero());
}

#[test]
fn fee_settings_out_of_range_underflow() {
    let mut amm = trading();
    amm.fee_in_bps = 10_001;
    assert_eq!(
        amm.swap(3, Side::Buy, SwapType::ExactIn { amount_in: 10_000, min_amount_out: 0 }),
        Err(PlasmaError::Underflow)
    );
    amm.fee_in_bps = 10_000;
    assert_eq!(
        amm.swap(3, Side::Buy, SwapType::ExactOut { amount_out: 10, max_amount_in: u64::MAX }),
        Err(PlasmaError::Underflow)
    );
    let mut amm = trading();
    amm.protocol_allocation_in_pct = 101;
    assert_eq!(amm.get_fee_splits(100), Err(PlasmaError::Underflow));
    assert_eq!(
        amm.swap(3, Side::Buy, SwapType::ExactIn { amount_in: 1_000_000, min_amount_out: 0 }),
        Err(PlasmaError::Underflow)
    );
}

#[test]
fn fees_split_between_providers_and_protocol() {
    let amm = trading();
    assert_eq!(amm.get_fee_splits(30), Ok((27, 3)));
    assert_eq!(amm.get_fee_splits(9), Ok((9, 0)));
    assert_eq!(amm.get_fee_splits(0), Ok((0, 0)));
}

#[test]
fn a_swap_that_overflows_a_reserve_fails() {
    let mut amm = pool(u64::MAX - 5, 1_000, 10);
    let before = amm;
    assert_eq!(
        amm.swap(3, Side::Sell, SwapType::ExactIn { amount_in: 6, min_amount_out: 0 }),
        Err(PlasmaError::Overflow)
    );
    assert_eq!(amm, before);
    let mut full = trading();
    full.cumulative_quote_lp_fees = u64::MAX;
    assert_eq!(
        full.swap(3, Side::Buy, SwapType::ExactIn { amount_in: 10_000, min_amount_out: 0 }),
        Err(PlasmaError::Overflow)
    );
}

#[test]
fn simulating_leaves_the_pool_alone() {
    let amm = trading();
    let res = amm.simulate_swap(Side::Buy, SwapType::ExactIn { amount_in: 10_000, min_amount_out: 0 }).unwrap();
    assert_eq!(res.base_amount_to_transfer, 9_871);
    assert_eq!(amm, trading());
}

#[test]
fn the_product_of_the_reserves_never_falls() {
    let mut amm = pool(977, 10_007, 100);
    let mut k = amm.base_reserves as u128 * amm.quote_reserves as u128;
    let trades = [
        (Side::Buy, SwapType::ExactIn { amount_in: 1, min_amount_out: 0 }),
        (Side::Sell, SwapType::ExactIn { amount_in: 1, min_amount_out: 0 }),
        (Side::Buy, SwapType::ExactOut { amount_out: 13, max_amount_in: u64::MAX }),
        (Side::Sell, SwapType::ExactOut { amount_out: 17, max_amount_in: u64::MAX }),
        (Side::Buy, SwapType::ExactIn { amount_in: 999, min_amount_out: 0 }),
        (Side::Sell, SwapType::ExactIn { amount_in: 333, min_amount_out: 0 }),
    ];
    for (slot, (side, swap_type)) in trades.iter().enumerate() {
        let factor = amm.reward_factor.to_bits();
        amm.swap(slot as u64, *side, *swap_type).unwrap();
        let after = amm.base_reserves as u128 * amm.quote_reserves as u128;
        assert!(after >= k);
        assert!(amm.reward_factor.to_bits() >= factor);
        assert_eq!(amm.total_lp_shares, 100);
        k = after;
    }
}
