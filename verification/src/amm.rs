//! The pool: reserves of the two assets, the supply of shares, the fee
//! settings and the fee accumulator, with the operations that mint and burn
//! shares and swap one asset for the other.

use vstd::prelude::*;
use vstd::arithmetic::div_mod::{lemma_fundamental_div_mod, lemma_div_is_ordered};
use crate::errors::PlasmaError;
use crate::fixed::{I80F48, ONE_BITS};
use crate::instructions::SwapType;
use crate::SlotWindow;

verus! {

/// The denominator of a fee given in basis points.
pub const BPS_BASE: u128 = 10000;

/// Which asset the trader receives: `Buy` pays quote for base, `Sell` pays
/// base for quote.
#[derive(Debug, Clone, Copy, PartialEq, Eq, Structural)]
pub enum Side {
    Buy,
    Sell,
}

/// What a swap moved.
///
/// The `matched_as_swap` amounts are what entered and left the reserves. The
/// `to_transfer` amounts are what the trader pays and receives: on a buy the
/// quote paid is the quote matched plus the fee, on a sell the quote received
/// is the quote matched less the fee. Nothing is matched as a limit order.
#[derive(Debug, Clone, Copy, PartialEq, Eq, Structural)]
pub struct SwapResult {
    pub side: Side,
    pub base_amount_to_transfer: u64,
    pub quote_amount_to_transfer: u64,
    pub base_matched_as_limit_order: u64,
    pub quote_matched_as_limit_order: u64,
    pub base_matched_as_swap: u64,
    pub quote_matched_as_swap: u64,
    pub fee_in_quote: u64,
}

impl SwapResult {
    /// A swap on `side` that moved nothing.
    pub fn new_empty_with_side(side: Side) -> (r: Self)
        ensures
            r == (SwapResult {
                side,
                base_amount_to_transfer: 0,
                quote_amount_to_transfer: 0,
                base_matched_as_limit_order: 0,
                quote_matched_as_limit_order: 0,
                base_matched_as_swap: 0,
                quote_matched_as_swap: 0,
                fee_in_quote: 0,
            }),
    {
        Self {
            side,
            base_amount_to_transfer: 0,
            quote_amount_to_transfer: 0,
            base_matched_as_limit_order: 0,
            quote_matched_as_limit_order: 0,
            base_matched_as_swap: 0,
            quote_matched_as_swap: 0,
            fee_in_quote: 0,
        }
    }
}

/// `a` / `d`, rounded up.
pub open spec fn ceil_div(a: int, d: int) -> int {
    if a == 0 {
        0
    } else {
        (a - 1) / d + 1
    }
}

/// Rounding up gives the least multiple of `d` that reaches `a`.
pub proof fn lemma_ceil_div(a: int, d: int)
    requires
        0 <= a,
        0 < d,
    ensures
        a <= ceil_div(a, d) * d,
        a > 0 ==> (ceil_div(a, d) - 1) * d < a,
        a > 0 ==> 1 <= ceil_div(a, d),
        0 <= ceil_div(a, d),
{
    if a > 0 {
        lemma_fundamental_div_mod(a - 1, d);
        let q = (a - 1) / d;
        let m = (a - 1) % d;
        lemma_div_is_ordered(0, a - 1, d);
        assert(0int / d == 0);
        assert(a <= (q + 1) * d && q * d < a) by (nonlinear_arith)
            requires
                a - 1 == d * q + m,
                0 <= m < d,
        ;
    } else {
        assert(0 * d == 0);
    }
}

/// What is within `m` multiples of `d` rounds up to at most `m`.
pub proof fn lemma_ceil_div_upper(a: int, d: int, m: int)
    requires
        0 <= a <= m * d,
        0 < d,
    ensures
        ceil_div(a, d) <= m,
{
    lemma_ceil_div(a, d);
    if a > 0 {
        let c = ceil_div(a, d);
        assert(c <= m) by (nonlinear_arith)
            requires
                (c - 1) * d < a,
                a <= m * d,
                0 < d,
        ;
    } else {
        assert(0 <= m) by (nonlinear_arith)
            requires
                0 <= m * d,
                0 < d,
        ;
    }
}

/// What reaches `m` multiples of `d` rounds up to at least `m`.
pub proof fn lemma_ceil_div_lower(a: int, d: int, m: int)
    requires
        0 <= m * d <= a,
        0 < d,
    ensures
        m <= ceil_div(a, d),
{
    lemma_ceil_div(a, d);
    let c = ceil_div(a, d);
    assert(m <= c) by (nonlinear_arith)
        requires
            a <= c * d,
            m * d <= a,
            0 < d,
    ;
}

/// The state of one pool.
#[derive(Debug, Clone, Copy, PartialEq, Eq, Structural)]
pub struct Amm {
    /// The fee on every swap, in basis points of the quote amount.
    pub fee_in_bps: u32,
    /// The part of each fee, in percent, that goes to the protocol.
    pub protocol_allocation_in_pct: u32,
    /// How many slots newly minted shares wait before they can be withdrawn.
    pub lp_vesting_window: u64,
    /// Quote fees earned so far by one share.
    pub reward_factor: I80F48,
    pub total_lp_shares: u64,
    /// The last slot in which the reserves were recorded.
    pub slot_snapshot: u64,
    pub base_reserves_snapshot: u64,
    pub quote_reserves_snapshot: u64,
    pub base_reserves: u64,
    pub quote_reserves: u64,
    pub cumulative_quote_lp_fees: u64,
    pub cumulative_quote_protocol_fees: u64,
}

impl Amm {
    /// The product of the two reserves.
    pub open spec fn k(self) -> int {
        self.base_reserves * self.quote_reserves
    }

    /// A pool without shares holds nothing, and its reward factor is not
    /// negative.
    pub open spec fn wf(self) -> bool {
        &&& self.total_lp_shares == 0 ==> self.base_reserves == 0 && self.quote_reserves == 0
        &&& self.reward_factor.bits() >= 0
    }

    /// The pool with its reserves recorded, where `slot` is later than the
    /// last recording.
    pub open spec fn with_snapshot(self, slot: SlotWindow) -> Amm {
        if slot > self.slot_snapshot {
            Amm {
                slot_snapshot: slot,
                base_reserves_snapshot: self.base_reserves,
                quote_reserves_snapshot: self.quote_reserves,
                ..self
            }
        } else {
            self
        }
    }

    /// What a deposit into a pool with shares takes of each asset: all of the
    /// asset that limits it, and of the other what keeps the reserve ratio.
    pub open spec fn matched_deposit(self, base_desired: u64, quote_desired: u64) -> (int, int) {
        let base_optimal = (quote_desired * self.base_reserves) / (self.quote_reserves as int);
        let quote_optimal = (base_desired * self.quote_reserves) / (self.base_reserves as int);
        if quote_desired >= quote_optimal {
            (base_desired as int, quote_optimal)
        } else {
            (base_optimal, quote_desired as int)
        }
    }

    /// The shares that a deposit of `base` and `quote` earns: the smaller of
    /// the two contribution ratios applied to the supply, rounded down.
    pub open spec fn shares_for(self, base: int, quote: int) -> int {
        let by_quote = (quote * self.total_lp_shares) / (self.quote_reserves as int);
        let by_base = (base * self.total_lp_shares) / (self.base_reserves as int);
        if by_quote <= by_base {
            by_quote
        } else {
            by_base
        }
    }

    /// What `mint` returns: the amounts deposited and the shares minted.
    pub open spec fn mint_outcome(
        self,
        base_desired: u64,
        quote_desired: u64,
        initial_lp_shares: Option<u64>,
    ) -> Result<(u64, u64, u64), PlasmaError> {
        if self.total_lp_shares == 0 {
            match initial_lp_shares {
                None => Err(PlasmaError::MissingExpectedArgument),
                Some(shares) => if shares == 0 {
                    Err(PlasmaError::BelowMinimumLpSharesRequired)
                } else if self.base_reserves + base_desired > u64::MAX || self.quote_reserves
                    + quote_desired > u64::MAX {
                    Err(PlasmaError::Overflow)
                } else {
                    Ok((base_desired, quote_desired, shares))
                },
            }
        } else if initial_lp_shares is Some {
            Err(PlasmaError::UnexpectedArgument)
        } else if self.base_reserves == 0 || self.quote_reserves == 0 {
            Err(PlasmaError::UninitializedPool)
        } else {
            let (base, quote) = self.matched_deposit(base_desired, quote_desired);
            let shares = self.shares_for(base, quote);
            if shares == 0 {
                Err(PlasmaError::BelowMinimumLpSharesRequired)
            } else if self.base_reserves + base > u64::MAX || self.quote_reserves + quote
                > u64::MAX || self.total_lp_shares + shares > u64::MAX {
                Err(PlasmaError::Overflow)
            } else {
                Ok((base as u64, quote as u64, shares as u64))
            }
        }
    }

    /// The pool after a deposit of `base` and `quote` for `shares` in `slot`.
    pub open spec fn minted(self, slot: SlotWindow, base: u64, quote: u64, shares: u64) -> Amm {
        let recorded = self.with_snapshot(slot);
        Amm {
            base_reserves: (self.base_reserves + base) as u64,
            quote_reserves: (self.quote_reserves + quote) as u64,
            total_lp_shares: (self.total_lp_shares + shares) as u64,
            ..recorded
        }
    }

    /// What `burn` returns: the amounts withdrawn for `lp_shares`.
    pub open spec fn burn_outcome(self, lp_shares: u64) -> Result<(u64, u64), PlasmaError> {
        if lp_shares == 0 {
            Ok((0, 0))
        } else if lp_shares > self.total_lp_shares {
            Err(PlasmaError::TooManyShares)
        } else {
            let base = (self.base_reserves * lp_shares) / (self.total_lp_shares as int);
            let quote = (self.quote_reserves * lp_shares) / (self.total_lp_shares as int);
            if base == 0 || quote == 0 {
                Err(
                    PlasmaError::BelowMinimumWithdrawaRequired {
                        quote_amount_to_withdraw: quote as u64,
                        base_amount_to_withdraw: base as u64,
                    },
                )
            } else {
                Ok((base as u64, quote as u64))
            }
        }
    }

    /// The pool after `shares` were burned for `base` and `quote` in `slot`.
    pub open spec fn burned(self, slot: SlotWindow, base: u64, quote: u64, shares: u64) -> Amm {
        let recorded = self.with_snapshot(slot);
        Amm {
            base_reserves: (self.base_reserves - base) as u64,
            quote_reserves: (self.quote_reserves - quote) as u64,
            total_lp_shares: (self.total_lp_shares - shares) as u64,
            ..recorded
        }
    }

    /// An empty pool with the given fee settings.
    pub fn new(
        fee_in_bps: u32,
        protocol_allocation_in_pct: u32,
        lp_vesting_window: u64,
        slot_snapshot: u64,
    ) -> (r: Self)
        ensures
            r == (Amm {
                fee_in_bps,
                protocol_allocation_in_pct,
                lp_vesting_window,
                reward_factor: I80F48 { inner: 0 },
                total_lp_shares: 0,
                slot_snapshot,
                base_reserves_snapshot: 0,
                quote_reserves_snapshot: 0,
                base_reserves: 0,
                quote_reserves: 0,
                cumulative_quote_lp_fees: 0,
                cumulative_quote_protocol_fees: 0,
            }),
            r.wf(),
    {
        Amm {
            fee_in_bps,
            protocol_allocation_in_pct,
            lp_vesting_window,
            reward_factor: I80F48::zero(),
            total_lp_shares: 0,
            slot_snapshot,
            base_reserves_snapshot: 0,
            quote_reserves_snapshot: 0,
            base_reserves: 0,
            quote_reserves: 0,
            cumulative_quote_lp_fees: 0,
            cumulative_quote_protocol_fees: 0,
        }
    }

    pub fn get_slot(&self) -> (r: SlotWindow)
        ensures
            r == self.slot_snapshot,
    {
        self.slot_snapshot
    }

    /// Records the reserves where `new_snapshot_slot` is later than the last
    /// recording, and says whether it did.
    pub fn maybe_update_snapshot(&mut self, new_snapshot_slot: SlotWindow) -> (r: bool)
        ensures
            *final(self) == old(self).with_snapshot(new_snapshot_slot),
            r == (new_snapshot_slot > old(self).slot_snapshot),
    {
        if new_snapshot_slot > self.slot_snapshot {
            self.slot_snapshot = new_snapshot_slot;
            self.base_reserves_snapshot = self.base_reserves;
            self.quote_reserves_snapshot = self.quote_reserves;
            true
        } else {
            false
        }
    }

    /// Deposits into the pool and mints shares for the deposit.
    ///
    /// Into a pool without shares both amounts go whole, for the number of
    /// shares that the caller names. Into a pool with shares goes what keeps
    /// the reserve ratio, and the caller names no number. A failed call
    /// leaves the pool as it was.
    pub fn mint(
        &mut self,
        slot: SlotWindow,
        base_amount_desired: u64,
        quote_amount_desired: u64,
        initial_lp_shares: Option<u64>,
    ) -> (r: Result<(u64, u64, u64), PlasmaError>)
        ensures
            r == old(self).mint_outcome(base_amount_desired, quote_amount_desired, initial_lp_shares),
            r is Err ==> *final(self) == *old(self),
            r is Ok ==> *final(self) == old(self).minted(
                slot,
                r->Ok_0.0,
                r->Ok_0.1,
                r->Ok_0.2,
            ),
            r is Ok ==> r->Ok_0.0 <= base_amount_desired && r->Ok_0.1 <= quote_amount_desired
                && r->Ok_0.2 > 0,
            old(self).wf() ==> final(self).wf(),
    {
        let total_shares: u128 = self.total_lp_shares as u128;
        let total_base: u128 = self.base_reserves as u128;
        let total_quote: u128 = self.quote_reserves as u128;
        let base_wanted: u128 = base_amount_desired as u128;
        let quote_wanted: u128 = quote_amount_desired as u128;
        let (base, quote, shares): (u128, u128, u128) = if total_shares == 0 {
            match initial_lp_shares {
                None => {
                    return Err(PlasmaError::MissingExpectedArgument);
                },
                Some(lp_shares) => {
                    if lp_shares == 0 {
                        return Err(PlasmaError::BelowMinimumLpSharesRequired);
                    }
                    (base_wanted, quote_wanted, lp_shares as u128)
                },
            }
        } else {
            if initial_lp_shares.is_some() {
                return Err(PlasmaError::UnexpectedArgument);
            }
            if total_base == 0 || total_quote == 0 {
                return Err(PlasmaError::UninitializedPool);
            }
            proof {
                lemma_product_fits(quote_wanted as int, total_base as int);
                lemma_product_fits(base_wanted as int, total_quote as int);
                lemma_matched_deposit_within(
                    base_wanted as int,
                    quote_wanted as int,
                    total_base as int,
                    total_quote as int,
                );
            }
            let base_optimal: u128 = quote_wanted * total_base / total_quote;
            let quote_optimal: u128 = base_wanted * total_quote / total_base;
            let (base, quote): (u128, u128) = if quote_wanted >= quote_optimal {
                (base_wanted, quote_optimal)
            } else {
                (base_optimal, quote_wanted)
            };
            proof {
                lemma_product_fits(quote as int, total_shares as int);
                lemma_product_fits(base as int, total_shares as int);
            }
            let by_quote: u128 = quote * total_shares / total_quote;
            let by_base: u128 = base * total_shares / total_base;
            let shares: u128 = if by_quote <= by_base {
                by_quote
            } else {
                by_base
            };
            if shares == 0 {
                return Err(PlasmaError::BelowMinimumLpSharesRequired);
            }
            (base, quote, shares)
        };
        let limit: u128 = u64::MAX as u128;
        if shares > limit || total_base + base > limit || total_quote + quote > limit
            || total_shares + shares > limit {
            return Err(PlasmaError::Overflow);
        }
        self.maybe_update_snapshot(slot);
        self.base_reserves = (total_base + base) as u64;
        self.quote_reserves = (total_quote + quote) as u64;
        self.total_lp_shares = (total_shares + shares) as u64;
        Ok((base as u64, quote as u64, shares as u64))
    }

    /// Burns `lp_shares` and withdraws their part of each reserve, rounded
    /// down. Burning no shares withdraws nothing. A failed call leaves the
    /// pool as it was.
    pub fn burn(&mut self, slot: SlotWindow, lp_shares: u64) -> (r: Result<(u64, u64), PlasmaError>)
        ensures
            r == old(self).burn_outcome(lp_shares),
            r is Err ==> *final(self) == *old(self),
            r is Ok ==> *final(self) == old(self).burned(slot, r->Ok_0.0, r->Ok_0.1, lp_shares),
            r is Ok ==> r->Ok_0.0 <= old(self).base_reserves,
            r is Ok ==> r->Ok_0.1 <= old(self).quote_reserves,
            old(self).wf() ==> final(self).wf(),
    {
        if lp_shares == 0 {
            self.maybe_update_snapshot(slot);
            return Ok((0, 0));
        }
        if lp_shares > self.total_lp_shares {
            return Err(PlasmaError::TooManyShares);
        }
        let total_shares: u128 = self.total_lp_shares as u128;
        let burnt: u128 = lp_shares as u128;
        let total_base: u128 = self.base_reserves as u128;
        let total_quote: u128 = self.quote_reserves as u128;
        proof {
            lemma_product_fits(total_base as int, burnt as int);
            lemma_product_fits(total_quote as int, burnt as int);
            lemma_part_within(total_base as int, burnt as int, total_shares as int);
            lemma_part_within(total_quote as int, burnt as int, total_shares as int);
            if burnt == total_shares {
                assert((total_base * total_shares) / (total_shares as int) == total_base)
                    by (nonlinear_arith)
                    requires
                        0 < total_shares,
                ;
                assert((total_quote * total_shares) / (total_shares as int) == total_quote)
                    by (nonlinear_arith)
                    requires
                        0 < total_shares,
                ;
            }
        }
        let base: u128 = total_base * burnt / total_shares;
        let quote: u128 = total_quote * burnt / total_shares;
        if base == 0 || quote == 0 {
            return Err(
                PlasmaError::BelowMinimumWithdrawaRequired {
                    quote_amount_to_withdraw: quote as u64,
                    base_amount_to_withdraw: base as u64,
                },
            );
        }
        self.maybe_update_snapshot(slot);
        self.base_reserves = (total_base - base) as u64;
        self.quote_reserves = (total_quote - quote) as u64;
        self.total_lp_shares = (total_shares - burnt) as u64;
        Ok((base as u64, quote as u64))
    }
}

impl Amm {
    /// The fee on a quote amount: its `fee_in_bps` basis points, rounded down.
    pub open spec fn fee_on(self, amount: int) -> int {
        (amount * self.fee_in_bps) / (BPS_BASE as int)
    }

    /// The amount that leaves about `amount` once the fee is taken from it:
    /// `amount` scaled by 10000 / (10000 - `fee_in_bps`), rounded down.
    pub open spec fn before_fee(self, amount: int) -> int {
        (amount * BPS_BASE) / (BPS_BASE - self.fee_in_bps)
    }

    /// A swap result on `side` with nothing matched as a limit order.
    pub open spec fn swap_result(
        side: Side,
        base_to_transfer: int,
        quote_to_transfer: int,
        base_matched: int,
        quote_matched: int,
        fee: int,
    ) -> SwapResult {
        SwapResult {
            side,
            base_amount_to_transfer: base_to_transfer as u64,
            quote_amount_to_transfer: quote_to_transfer as u64,
            base_matched_as_limit_order: 0,
            quote_matched_as_limit_order: 0,
            base_matched_as_swap: base_matched as u64,
            quote_matched_as_swap: quote_matched as u64,
            fee_in_quote: fee as u64,
        }
    }

    /// Paying `quote_in` for base: the fee comes off the quote paid, and the
    /// rest enters the quote reserve. The base reserve keeps what the product
    /// of the reserves needs, rounded up, and the trader gets the rest.
    pub open spec fn buy_exact_in_trade(self, quote_in: u64, min_base_out: u64) -> Result<
        SwapResult,
        PlasmaError,
    > {
        let fee = self.fee_on(quote_in as int);
        let matched = quote_in - fee;
        let base_out = self.base_reserves - ceil_div(self.k(), self.quote_reserves + matched);
        if fee > quote_in {
            Err(PlasmaError::Underflow)
        } else if self.quote_reserves + matched > u64::MAX {
            Err(PlasmaError::Overflow)
        } else if base_out < min_base_out {
            Err(PlasmaError::SwapExactInTooLarge)
        } else {
            Ok(Self::swap_result(Side::Buy, base_out, quote_in as int, base_out, matched, fee))
        }
    }

    /// Receiving `base_out` for quote: the quote reserve rises to what the
    /// product of the reserves needs, rounded up, and the trader pays that
    /// rise and the fee on top of it.
    pub open spec fn buy_exact_out_trade(self, base_out: u64, max_quote_in: u64) -> Result<
        SwapResult,
        PlasmaError,
    > {
        let matched = ceil_div(self.k(), self.base_reserves - base_out) - self.quote_reserves;
        let quote_in = self.before_fee(matched);
        if base_out >= self.base_reserves {
            Err(
                PlasmaError::SwapOutputGreaterThanOrEqualToReserves(
                    base_out as u128,
                    self.base_reserves as u128,
                ),
            )
        } else if self.fee_in_bps >= BPS_BASE {
            Err(PlasmaError::Underflow)
        } else if self.quote_reserves + matched > u64::MAX || quote_in > u64::MAX {
            Err(PlasmaError::Overflow)
        } else if quote_in > max_quote_in {
            Err(PlasmaError::SwapExactOutTooLarge)
        } else {
            Ok(
                Self::swap_result(
                    Side::Buy,
                    base_out as int,
                    quote_in,
                    base_out as int,
                    matched,
                    quote_in - matched,
                ),
            )
        }
    }

    /// Paying `base_in` for quote: the base enters the base reserve, the
    /// quote reserve keeps what the product of the reserves needs, rounded
    /// up, and the trader gets the rest less the fee on it.
    pub open spec fn sell_exact_in_trade(self, base_in: u64, min_quote_out: u64) -> Result<
        SwapResult,
        PlasmaError,
    > {
        let matched = self.quote_reserves - ceil_div(self.k(), self.base_reserves + base_in);
        let fee = self.fee_on(matched);
        if self.base_reserves + base_in > u64::MAX {
            Err(PlasmaError::Overflow)
        } else if fee > matched {
            Err(PlasmaError::Underflow)
        } else if matched - fee < min_quote_out {
            Err(PlasmaError::SwapExactInTooLarge)
        } else {
            Ok(
                Self::swap_result(
                    Side::Sell,
                    base_in as int,
                    matched - fee,
                    base_in as int,
                    matched,
                    fee,
                ),
            )
        }
    }

    /// Receiving `quote_out` for base: the quote reserve gives `quote_out`
    /// and the fee on top of it, and the trader pays the rise of the base
    /// reserve to what the product of the reserves needs, rounded up.
    pub open spec fn sell_exact_out_trade(self, quote_out: u64, max_base_in: u64) -> Result<
        SwapResult,
        PlasmaError,
    > {
        let matched = self.before_fee(quote_out as int);
        let base_in = ceil_div(self.k(), self.quote_reserves - matched) - self.base_reserves;
        if self.fee_in_bps >= BPS_BASE {
            Err(PlasmaError::Underflow)
        } else if matched >= self.quote_reserves {
            Err(
                PlasmaError::SwapOutputGreaterThanOrEqualToReserves(
                    matched as u128,
                    self.quote_reserves as u128,
                ),
            )
        } else if self.base_reserves + base_in > u64::MAX {
            Err(PlasmaError::Overflow)
        } else if base_in > max_base_in {
            Err(PlasmaError::SwapExactOutTooLarge)
        } else {
            Ok(
                Self::swap_result(
                    Side::Sell,
                    base_in,
                    quote_out as int,
                    base_in,
                    matched,
                    matched - quote_out,
                ),
            )
        }
    }

    /// What a swap would move, before the fee is booked. A pool without
    /// shares, or with an empty reserve, does not trade.
    pub open spec fn trade(self, side: Side, swap_type: SwapType) -> Result<
        SwapResult,
        PlasmaError,
    > {
        if self.total_lp_shares == 0 || self.base_reserves == 0 || self.quote_reserves == 0 {
            Err(PlasmaError::UninitializedPool)
        } else {
            match side {
                Side::Buy => match swap_type {
                    SwapType::ExactIn { amount_in, min_amount_out } => self.buy_exact_in_trade(
                        amount_in,
                        min_amount_out,
                    ),
                    SwapType::ExactOut { amount_out, max_amount_in } => self.buy_exact_out_trade(
                        amount_out,
                        max_amount_in,
                    ),
                },
                Side::Sell => match swap_type {
                    SwapType::ExactIn { amount_in, min_amount_out } => self.sell_exact_in_trade(
                        amount_in,
                        min_amount_out,
                    ),
                    SwapType::ExactOut { amount_out, max_amount_in } => self.sell_exact_out_trade(
                        amount_out,
                        max_amount_in,
                    ),
                },
            }
        }
    }

    /// The base reserve after the amounts of `res` moved.
    pub open spec fn base_after(self, res: SwapResult) -> int {
        match res.side {
            Side::Buy => self.base_reserves - res.base_matched_as_swap,
            Side::Sell => self.base_reserves + res.base_matched_as_swap,
        }
    }

    /// The quote reserve after the amounts of `res` moved.
    pub open spec fn quote_after(self, res: SwapResult) -> int {
        match res.side {
            Side::Buy => self.quote_reserves + res.quote_matched_as_swap,
            Side::Sell => self.quote_reserves - res.quote_matched_as_swap,
        }
    }

    /// Whether the reserves can move by the amounts of `res`, and their
    /// product does not fall when they do.
    pub open spec fn admits(self, res: SwapResult) -> bool {
        &&& 0 < self.base_after(res) <= u64::MAX
        &&& 0 < self.quote_after(res) <= u64::MAX
        &&& self.k() <= self.base_after(res) * self.quote_after(res)
    }

    /// The protocol's part of a fee: `protocol_allocation_in_pct` percent of
    /// it, rounded down. The providers of liquidity get the rest.
    pub open spec fn protocol_part(self, fee: u64) -> int {
        (fee * self.protocol_allocation_in_pct) / 100
    }

    /// What a fee adds to the reward factor: the providers' part of it,
    /// divided by the number of shares, rounded down to a multiple of 2^-48.
    pub open spec fn reward_step(self, fee: u64) -> int {
        ((fee - self.protocol_part(fee)) * ONE_BITS) / (self.total_lp_shares as int)
    }

    /// Why `fee` cannot be booked, if it cannot.
    pub open spec fn fee_failure(self, fee: u64) -> Option<PlasmaError> {
        let protocol = self.protocol_part(fee);
        if protocol > fee {
            Some(PlasmaError::Underflow)
        } else if self.cumulative_quote_lp_fees + (fee - protocol) > u64::MAX
            || self.cumulative_quote_protocol_fees + protocol > u64::MAX
            || self.reward_factor.bits() + self.reward_step(fee) > i128::MAX {
            Some(PlasmaError::Overflow)
        } else {
            None
        }
    }

    /// The pool with `fee` booked.
    pub open spec fn with_fee(self, fee: u64) -> Amm {
        let protocol = self.protocol_part(fee);
        Amm {
            cumulative_quote_lp_fees: (self.cumulative_quote_lp_fees + (fee - protocol)) as u64,
            cumulative_quote_protocol_fees: (self.cumulative_quote_protocol_fees + protocol) as u64,
            reward_factor: I80F48 {
                inner: (self.reward_factor.bits() + self.reward_step(fee)) as i128,
            },
            ..self
        }
    }

    /// What `swap` returns.
    pub open spec fn swap_outcome(self, side: Side, swap_type: SwapType) -> Result<
        SwapResult,
        PlasmaError,
    > {
        match self.trade(side, swap_type) {
            Err(e) => Err(e),
            Ok(res) => match self.fee_failure(res.fee_in_quote) {
                Some(e) => Err(e),
                None => Ok(res),
            },
        }
    }

    /// The pool after the swap `res` in `slot`.
    pub open spec fn swapped(self, slot: SlotWindow, res: SwapResult) -> Amm {
        (Amm {
            base_reserves: self.base_after(res) as u64,
            quote_reserves: self.quote_after(res) as u64,
            ..self.with_snapshot(slot)
        }).with_fee(res.fee_in_quote)
    }

    /// Splits a fee into the providers' part and the protocol's part.
    pub fn get_fee_splits(&self, total_fees: u64) -> (r: Result<(u64, u64), PlasmaError>)
        ensures
            self.protocol_part(total_fees) > total_fees ==> r == Err::<(u64, u64), PlasmaError>(
                PlasmaError::Underflow,
            ),
            self.protocol_part(total_fees) <= total_fees ==> r == Ok::<(u64, u64), PlasmaError>(
                (
                    (total_fees - self.protocol_part(total_fees)) as u64,
                    self.protocol_part(total_fees) as u64,
                ),
            ),
    {
        let fees: u128 = total_fees as u128;
        let pct: u128 = self.protocol_allocation_in_pct as u128;
        proof {
            lemma_product_fits(fees as int, pct as int);
            lemma_div_is_ordered(0, fees * pct, 100);
        }
        let protocol_fees: u128 = fees * pct / 100;
        if protocol_fees > fees {
            return Err(PlasmaError::Underflow);
        }
        Ok(((fees - protocol_fees) as u64, protocol_fees as u64))
    }

    /// Books a fee: adds its parts to the running totals, and credits the
    /// providers' part to every share through the reward factor.
    fn apply_fees(&mut self, quote_fee: u64) -> (r: Result<(), PlasmaError>)
        requires
            old(self).total_lp_shares > 0,
        ensures
            old(self).fee_failure(quote_fee) is Some ==> r == Err::<(), PlasmaError>(
                old(self).fee_failure(quote_fee)->Some_0,
            ) && *final(self) == *old(self),
            old(self).fee_failure(quote_fee) is None ==> r is Ok && *final(self) == old(
                self,
            ).with_fee(quote_fee),
            final(self).reward_factor.bits() >= old(self).reward_factor.bits(),
    {
        let (lp_fees, protocol_fees) = match self.get_fee_splits(quote_fee) {
            Ok(pair) => pair,
            Err(e) => {
                return Err(e);
            },
        };
        let cumulative_lp = match self.cumulative_quote_lp_fees.checked_add(lp_fees) {
            Some(sum) => sum,
            None => {
                return Err(PlasmaError::Overflow);
            },
        };
        let cumulative_protocol = match self.cumulative_quote_protocol_fees.checked_add(
            protocol_fees,
        ) {
            Some(sum) => sum,
            None => {
                return Err(PlasmaError::Overflow);
            },
        };
        let step = I80F48::from_fraction(lp_fees, self.total_lp_shares);
        proof {
            assert(0 <= lp_fees * ONE_BITS) by (nonlinear_arith)
                requires
                    0 <= lp_fees,
                    ONE_BITS > 0,
            ;
            lemma_div_is_ordered(0, lp_fees * ONE_BITS, self.total_lp_shares as int);
        }
        let reward_factor = match self.reward_factor.checked_add(step) {
            Ok(sum) => sum,
            Err(_) => {
                return Err(PlasmaError::Overflow);
            },
        };
        self.cumulative_quote_lp_fees = cumulative_lp;
        self.cumulative_quote_protocol_fees = cumulative_protocol;
        self.reward_factor = reward_factor;
        Ok(())
    }
}

impl Amm {
    fn quote_buy_exact_in(&self, quote_in: u64, min_base_out: u64) -> (r: Result<
        SwapResult,
        PlasmaError,
    >)
        requires
            self.base_reserves > 0,
            self.quote_reserves > 0,
        ensures
            r == self.buy_exact_in_trade(quote_in, min_base_out),
            r is Ok ==> self.admits(r->Ok_0) && r->Ok_0.side == Side::Buy,
    {
        let base: u128 = self.base_reserves as u128;
        let quote: u128 = self.quote_reserves as u128;
        let paid: u128 = quote_in as u128;
        let bps: u128 = self.fee_in_bps as u128;
        proof {
            lemma_product_fits(paid as int, bps as int);
            lemma_div_is_ordered(0, paid * bps, BPS_BASE as int);
            lemma_product_fits(base as int, quote as int);
        }
        let fee: u128 = paid * bps / BPS_BASE;
        if fee > paid {
            return Err(PlasmaError::Underflow);
        }
        let matched: u128 = paid - fee;
        let new_quote: u128 = quote + matched;
        if new_quote > u64::MAX as u128 {
            return Err(PlasmaError::Overflow);
        }
        let k_start: u128 = base * quote;
        let new_base: u128 = ceil_div_u128(k_start, new_quote);
        proof {
            assert(1 <= k_start <= base * new_quote) by (nonlinear_arith)
                requires
                    k_start == base * quote,
                    1 <= base,
                    1 <= quote <= new_quote,
            ;
            lemma_ceil_div(k_start as int, new_quote as int);
            lemma_ceil_div_upper(k_start as int, new_quote as int, base as int);
            lemma_product_fits(new_base as int, new_quote as int);
        }
        let k_end: u128 = new_base * new_quote;
        // Rounding the reserve that is kept upwards keeps the product from
        // falling, so this never fires. It guards a change of the rounding.
        if k_start > k_end {
            return Err(PlasmaError::InvariantViolation(k_start, k_end));
        }
        let base_out: u128 = base - new_base;
        if base_out < min_base_out as u128 {
            return Err(PlasmaError::SwapExactInTooLarge);
        }
        Ok(
            SwapResult {
                side: Side::Buy,
                base_amount_to_transfer: base_out as u64,
                quote_amount_to_transfer: quote_in,
                base_matched_as_limit_order: 0,
                quote_matched_as_limit_order: 0,
                base_matched_as_swap: base_out as u64,
                quote_matched_as_swap: matched as u64,
                fee_in_quote: fee as u64,
            },
        )
    }

    fn quote_buy_exact_out(&self, base_out: u64, max_quote_in: u64) -> (r: Result<
        SwapResult,
        PlasmaError,
    >)
        requires
            self.base_reserves > 0,
            self.quote_reserves > 0,
        ensures
            r == self.buy_exact_out_trade(base_out, max_quote_in),
            r is Ok ==> self.admits(r->Ok_0) && r->Ok_0.side == Side::Buy,
    {
        let base: u128 = self.base_reserves as u128;
        let quote: u128 = self.quote_reserves as u128;
        let bps: u128 = self.fee_in_bps as u128;
        if base_out as u128 >= base {
            return Err(
                PlasmaError::SwapOutputGreaterThanOrEqualToReserves(base_out as u128, base),
            );
        }
        if bps >= BPS_BASE {
            return Err(PlasmaError::Underflow);
        }
        let new_base: u128 = base - base_out as u128;
        proof {
            lemma_product_fits(base as int, quote as int);
        }
        let k_start: u128 = base * quote;
        let new_quote: u128 = ceil_div_u128(k_start, new_base);
        proof {
            assert(new_base * quote <= k_start) by (nonlinear_arith)
                requires
                    k_start == base * quote,
                    0 < new_base <= base,
                    0 <= quote,
            ;
            assert(quote * new_base == new_base * quote) by (nonlinear_arith);
            assert(0 <= quote * new_base) by (nonlinear_arith)
                requires
                    0 <= quote,
                    0 <= new_base,
            ;
            lemma_ceil_div(k_start as int, new_base as int);
            lemma_ceil_div_lower(k_start as int, new_base as int, quote as int);
        }
        if new_quote > u64::MAX as u128 {
            return Err(PlasmaError::Overflow);
        }
        let matched: u128 = new_quote - quote;
        proof {
            lemma_product_fits(matched as int, BPS_BASE as int);
            lemma_product_fits(new_base as int, new_quote as int);
            assert(new_base * new_quote == new_quote * new_base) by (nonlinear_arith);
        }
        let quote_in: u128 = matched * BPS_BASE / (BPS_BASE - bps);
        proof {
            assert(quote_in >= matched) by (nonlinear_arith)
                requires
                    quote_in == (matched * BPS_BASE) / ((BPS_BASE - bps) as int),
                    0 < BPS_BASE - bps <= BPS_BASE,
                    0 <= matched,
            ;
        }
        if quote_in > u64::MAX as u128 {
            return Err(PlasmaError::Overflow);
        }
        let k_end: u128 = new_base * new_quote;
        if k_start > k_end {
            return Err(PlasmaError::InvariantViolation(k_start, k_end));
        }
        if quote_in > max_quote_in as u128 {
            return Err(PlasmaError::SwapExactOutTooLarge);
        }
        Ok(
            SwapResult {
                side: Side::Buy,
                base_amount_to_transfer: base_out,
                quote_amount_to_transfer: quote_in as u64,
                base_matched_as_limit_order: 0,
                quote_matched_as_limit_order: 0,
                base_matched_as_swap: base_out,
                quote_matched_as_swap: matched as u64,
                fee_in_quote: (quote_in - matched) as u64,
            },
        )
    }

    fn quote_sell_exact_in(&self, base_in: u64, min_quote_out: u64) -> (r: Result<
        SwapResult,
        PlasmaError,
    >)
        requires
            self.base_reserves > 0,
            self.quote_reserves > 0,
        ensures
            r == self.sell_exact_in_trade(base_in, min_quote_out),
            r is Ok ==> self.admits(r->Ok_0) && r->Ok_0.side == Side::Sell,
    {
        let base: u128 = self.base_reserves as u128;
        let quote: u128 = self.quote_reserves as u128;
        let bps: u128 = self.fee_in_bps as u128;
        let new_base: u128 = base + base_in as u128;
        if new_base > u64::MAX as u128 {
            return Err(PlasmaError::Overflow);
        }
        proof {
            lemma_product_fits(base as int, quote as int);
        }
        let k_start: u128 = base * quote;
        let new_quote: u128 = ceil_div_u128(k_start, new_base);
        proof {
            assert(1 <= k_start <= quote * new_base) by (nonlinear_arith)
                requires
                    k_start == base * quote,
                    1 <= quote,
                    1 <= base <= new_base,
            ;
            lemma_ceil_div(k_start as int, new_base as int);
            lemma_ceil_div_upper(k_start as int, new_base as int, quote as int);
            lemma_product_fits(new_base as int, new_quote as int);
            assert(new_base * new_quote == new_quote * new_base) by (nonlinear_arith);
        }
        let matched: u128 = quote - new_quote;
        proof {
            lemma_product_fits(matched as int, bps as int);
            lemma_div_is_ordered(0, matched * bps, BPS_BASE as int);
        }
        let fee: u128 = matched * bps / BPS_BASE;
        if fee > matched {
            return Err(PlasmaError::Underflow);
        }
        let k_end: u128 = new_base * new_quote;
        if k_start > k_end {
            return Err(PlasmaError::InvariantViolation(k_start, k_end));
        }
        let quote_out: u128 = matched - fee;
        if quote_out < min_quote_out as u128 {
            return Err(PlasmaError::SwapExactInTooLarge);
        }
        Ok(
            SwapResult {
                side: Side::Sell,
                base_amount_to_transfer: base_in,
                quote_amount_to_transfer: quote_out as u64,
                base_matched_as_limit_order: 0,
                quote_matched_as_limit_order: 0,
                base_matched_as_swap: base_in,
                quote_matched_as_swap: matched as u64,
                fee_in_quote: fee as u64,
            },
        )
    }

    fn quote_sell_exact_out(&self, quote_out: u64, max_base_in: u64) -> (r: Result<
        SwapResult,
        PlasmaError,
    >)
        requires
            self.base_reserves > 0,
            self.quote_reserves > 0,
        ensures
            r == self.sell_exact_out_trade(quote_out, max_base_in),
            r is Ok ==> self.admits(r->Ok_0) && r->Ok_0.side == Side::Sell,
    {
        let base: u128 = self.base_reserves as u128;
        let quote: u128 = self.quote_reserves as u128;
        let bps: u128 = self.fee_in_bps as u128;
        if bps >= BPS_BASE {
            return Err(PlasmaError::Underflow);
        }
        let received: u128 = quote_out as u128;
        proof {
            lemma_product_fits(received as int, BPS_BASE as int);
        }
        let matched: u128 = received * BPS_BASE / (BPS_BASE - bps);
        proof {
            assert(matched >= received) by (nonlinear_arith)
                requires
                    matched == (received * BPS_BASE) / ((BPS_BASE - bps) as int),
                    0 < BPS_BASE - bps <= BPS_BASE,
                    0 <= received,
            ;
        }
        if matched >= quote {
            return Err(PlasmaError::SwapOutputGreaterThanOrEqualToReserves(matched, quote));
        }
        let new_quote: u128 = quote - matched;
        proof {
            lemma_product_fits(base as int, quote as int);
        }
        let k_start: u128 = base * quote;
        let new_base: u128 = ceil_div_u128(k_start, new_quote);
        proof {
            assert(0 <= base * new_quote <= k_start) by (nonlinear_arith)
                requires
                    k_start == base * quote,
                    0 < new_quote <= quote,
                    0 <= base,
            ;
            lemma_ceil_div(k_start as int, new_quote as int);
            lemma_ceil_div_lower(k_start as int, new_quote as int, base as int);
        }
        if new_base > u64::MAX as u128 {
            return Err(PlasmaError::Overflow);
        }
        proof {
            lemma_product_fits(new_base as int, new_quote as int);
        }
        let k_end: u128 = new_base * new_quote;
        if k_start > k_end {
            return Err(PlasmaError::InvariantViolation(k_start, k_end));
        }
        let base_in: u128 = new_base - base;
        if base_in > max_base_in as u128 {
            return Err(PlasmaError::SwapExactOutTooLarge);
        }
        Ok(
            SwapResult {
                side: Side::Sell,
                base_amount_to_transfer: base_in as u64,
                quote_amount_to_transfer: quote_out,
                base_matched_as_limit_order: 0,
                quote_matched_as_limit_order: 0,
                base_matched_as_swap: base_in as u64,
                quote_matched_as_swap: matched as u64,
                fee_in_quote: (matched - received) as u64,
            },
        )
    }

    /// What a swap would move, without touching the pool and without
    /// booking the fee.
    pub fn simulate_swap(&self, side: Side, swap_type: SwapType) -> (r: Result<
        SwapResult,
        PlasmaError,
    >)
        ensures
            r == self.trade(side, swap_type),
            r is Ok ==> self.admits(r->Ok_0) && r->Ok_0.side == side,
    {
        if self.total_lp_shares == 0 || self.base_reserves == 0 || self.quote_reserves == 0 {
            return Err(PlasmaError::UninitializedPool);
        }
        match side {
            Side::Buy => match swap_type {
                SwapType::ExactIn { amount_in, min_amount_out } => self.quote_buy_exact_in(
                    amount_in,
                    min_amount_out,
                ),
                SwapType::ExactOut { amount_out, max_amount_in } => self.quote_buy_exact_out(
                    amount_out,
                    max_amount_in,
                ),
            },
            Side::Sell => match swap_type {
                SwapType::ExactIn { amount_in, min_amount_out } => self.quote_sell_exact_in(
                    amount_in,
                    min_amount_out,
                ),
                SwapType::ExactOut { amount_out, max_amount_in } => self.quote_sell_exact_out(
                    amount_out,
                    max_amount_in,
                ),
            },
        }
    }

    /// Swaps one asset for the other along the constant product of the
    /// reserves, and books the fee.
    ///
    /// The fee is in quote: a buy pays it on top of what enters the quote
    /// reserve, a sell pays it out of what leaves the quote reserve. The
    /// product of the reserves never falls, the reward factor never falls,
    /// and the supply of shares stays. A failed call leaves the pool as it
    /// was.
    pub fn swap(&mut self, slot: SlotWindow, side: Side, swap_type: SwapType) -> (r: Result<
        SwapResult,
        PlasmaError,
    >)
        ensures
            r == old(self).swap_outcome(side, swap_type),
            r is Err ==> *final(self) == *old(self),
            r is Ok ==> *final(self) == old(self).swapped(slot, r->Ok_0),
            r is Ok ==> old(self).k() <= final(self).k(),
            r is Ok ==> final(self).total_lp_shares == old(self).total_lp_shares,
            final(self).reward_factor.bits() >= old(self).reward_factor.bits(),
            old(self).wf() ==> final(self).wf(),
    {
        let res = match self.simulate_swap(side, swap_type) {
            Ok(res) => res,
            Err(e) => {
                return Err(e);
            },
        };
        let mut pool = *self;
        pool.maybe_update_snapshot(slot);
        match side {
            Side::Buy => {
                pool.base_reserves = pool.base_reserves - res.base_matched_as_swap;
                pool.quote_reserves = pool.quote_reserves + res.quote_matched_as_swap;
            },
            Side::Sell => {
                pool.base_reserves = pool.base_reserves + res.base_matched_as_swap;
                pool.quote_reserves = pool.quote_reserves - res.quote_matched_as_swap;
            },
        }
        match pool.apply_fees(res.fee_in_quote) {
            Ok(()) => {},
            Err(e) => {
                return Err(e);
            },
        }
        *self = pool;
        Ok(res)
    }
}

/// `a` / `d`, rounded up.
fn ceil_div_u128(a: u128, d: u128) -> (r: u128)
    requires
        d > 0,
    ensures
        r == ceil_div(a as int, d as int),
{
    if a == 0 {
        0
    } else {
        assert((a - 1) / (d as int) <= a - 1) by (nonlinear_arith)
            requires
                0 <= a - 1,
                0 < d,
        ;
        (a - 1) / d + 1
    }
}

/// A purchase for a fixed payment leaves both reserves positive and their
/// product no smaller.
pub proof fn lemma_buy_exact_in_admits(amm: Amm, quote_in: u64, min_base_out: u64)
    requires
        amm.base_reserves > 0,
        amm.quote_reserves > 0,
        amm.buy_exact_in_trade(quote_in, min_base_out) is Ok,
    ensures
        amm.admits(amm.buy_exact_in_trade(quote_in, min_base_out)->Ok_0),
        amm.buy_exact_in_trade(quote_in, min_base_out)->Ok_0.side == Side::Buy,
{
    let base = amm.base_reserves as int;
    let quote = amm.quote_reserves as int;
    let fee = amm.fee_on(quote_in as int);
    let new_quote = quote + (quote_in - fee);
    let k = amm.k();
    assert(1 <= k <= base * new_quote) by (nonlinear_arith)
        requires
            k == base * quote,
            1 <= base,
            1 <= quote <= new_quote,
    ;
    lemma_ceil_div(k, new_quote);
    lemma_ceil_div_upper(k, new_quote, base);
}

/// A purchase of a fixed amount leaves both reserves positive and their
/// product no smaller.
pub proof fn lemma_buy_exact_out_admits(amm: Amm, base_out: u64, max_quote_in: u64)
    requires
        amm.base_reserves > 0,
        amm.quote_reserves > 0,
        amm.buy_exact_out_trade(base_out, max_quote_in) is Ok,
    ensures
        amm.admits(amm.buy_exact_out_trade(base_out, max_quote_in)->Ok_0),
        amm.buy_exact_out_trade(base_out, max_quote_in)->Ok_0.side == Side::Buy,
{
    let base = amm.base_reserves as int;
    let quote = amm.quote_reserves as int;
    let new_base = base - base_out;
    let k = amm.k();
    let new_quote = ceil_div(k, new_base);
    assert(0 <= quote * new_base <= k) by (nonlinear_arith)
        requires
            k == base * quote,
            0 < new_base <= base,
            0 <= quote,
    ;
    lemma_ceil_div(k, new_base);
    lemma_ceil_div_lower(k, new_base, quote);
    let matched = new_quote - quote;
    let quote_in = amm.before_fee(matched);
    assert(quote_in >= matched) by (nonlinear_arith)
        requires
            quote_in == (matched * BPS_BASE) / (BPS_BASE - amm.fee_in_bps),
            0 < BPS_BASE - amm.fee_in_bps <= BPS_BASE,
            0 <= matched,
    ;
    assert(new_base * new_quote == new_quote * new_base) by (nonlinear_arith);
}

/// A sale of a fixed amount leaves both reserves positive and their product
/// no smaller.
pub proof fn lemma_sell_exact_in_admits(amm: Amm, base_in: u64, min_quote_out: u64)
    requires
        amm.base_reserves > 0,
        amm.quote_reserves > 0,
        amm.sell_exact_in_trade(base_in, min_quote_out) is Ok,
    ensures
        amm.admits(amm.sell_exact_in_trade(base_in, min_quote_out)->Ok_0),
        amm.sell_exact_in_trade(base_in, min_quote_out)->Ok_0.side == Side::Sell,
{
    let base = amm.base_reserves as int;
    let quote = amm.quote_reserves as int;
    let new_base = base + base_in;
    let k = amm.k();
    let new_quote = ceil_div(k, new_base);
    assert(1 <= k <= quote * new_base) by (nonlinear_arith)
        requires
            k == base * quote,
            1 <= quote,
            1 <= base <= new_base,
    ;
    lemma_ceil_div(k, new_base);
    lemma_ceil_div_upper(k, new_base, quote);
    let matched = quote - new_quote;
    assert(0 <= matched * amm.fee_in_bps) by (nonlinear_arith)
        requires
            0 <= matched,
            0 <= amm.fee_in_bps,
    ;
    lemma_div_is_ordered(0, matched * amm.fee_in_bps, BPS_BASE as int);
    assert(new_base * new_quote == new_quote * new_base) by (nonlinear_arith);
}

/// A sale for fixed proceeds leaves both reserves positive and their product
/// no smaller.
pub proof fn lemma_sell_exact_out_admits(amm: Amm, quote_out: u64, max_base_in: u64)
    requires
        amm.base_reserves > 0,
        amm.quote_reserves > 0,
        amm.sell_exact_out_trade(quote_out, max_base_in) is Ok,
    ensures
        amm.admits(amm.sell_exact_out_trade(quote_out, max_base_in)->Ok_0),
        amm.sell_exact_out_trade(quote_out, max_base_in)->Ok_0.side == Side::Sell,
{
    let base = amm.base_reserves as int;
    let quote = amm.quote_reserves as int;
    let matched = amm.before_fee(quote_out as int);
    assert(matched >= quote_out) by (nonlinear_arith)
        requires
            matched == (quote_out * BPS_BASE) / (BPS_BASE - amm.fee_in_bps),
            0 < BPS_BASE - amm.fee_in_bps <= BPS_BASE,
            0 <= quote_out,
    ;
    let new_quote = quote - matched;
    let k = amm.k();
    assert(0 <= base * new_quote <= k) by (nonlinear_arith)
        requires
            k == base * quote,
            0 < new_quote <= quote,
            0 <= base,
    ;
    lemma_ceil_div(k, new_quote);
    lemma_ceil_div_lower(k, new_quote, base);
}

/// Whatever a pool trades leaves both reserves positive and their product
/// no smaller.
pub proof fn lemma_trade_admits(amm: Amm, side: Side, swap_type: SwapType)
    requires
        amm.trade(side, swap_type) is Ok,
    ensures
        amm.admits(amm.trade(side, swap_type)->Ok_0),
        amm.trade(side, swap_type)->Ok_0.side == side,
{
    match side {
        Side::Buy => match swap_type {
            SwapType::ExactIn { amount_in, min_amount_out } => lemma_buy_exact_in_admits(
                amm,
                amount_in,
                min_amount_out,
            ),
            SwapType::ExactOut { amount_out, max_amount_in } => lemma_buy_exact_out_admits(
                amm,
                amount_out,
                max_amount_in,
            ),
        },
        Side::Sell => match swap_type {
            SwapType::ExactIn { amount_in, min_amount_out } => lemma_sell_exact_in_admits(
                amm,
                amount_in,
                min_amount_out,
            ),
            SwapType::ExactOut { amount_out, max_amount_in } => lemma_sell_exact_out_admits(
                amm,
                amount_out,
                max_amount_in,
            ),
        },
    }
}

/// The product of two 64-bit amounts fits in 128 bits.
pub proof fn lemma_product_fits(a: int, b: int)
    requires
        0 <= a <= u64::MAX,
        0 <= b <= u64::MAX,
    ensures
        0 <= a * b <= u128::MAX,
{
    assert(0 <= a * b <= 0xffff_ffff_ffff_ffff * 0xffff_ffff_ffff_ffff) by (nonlinear_arith)
        requires
            0 <= a <= 0xffff_ffff_ffff_ffff,
            0 <= b <= 0xffff_ffff_ffff_ffff,
    ;
}

/// A part `n` of `total` taken of `amount`, rounded down, is within `amount`.
pub proof fn lemma_part_within(amount: int, n: int, total: int)
    requires
        0 <= amount,
        0 <= n <= total,
        0 < total,
    ensures
        0 <= (amount * n) / total <= amount,
{
    assert(0 <= amount * n <= amount * total) by (nonlinear_arith)
        requires
            0 <= amount,
            0 <= n <= total,
    ;
    lemma_div_is_ordered(amount * n, amount * total, total);
    lemma_div_is_ordered(0, amount * n, total);
    assert((amount * total) / total == amount) by (nonlinear_arith)
        requires
            0 < total,
    ;
}

/// Where the quote offered is under what the base offered would need, the
/// base that the quote offered needs is within the base offered.
pub proof fn lemma_matched_deposit_within(base: int, quote: int, total_base: int, total_quote: int)
    requires
        0 <= base,
        0 <= quote,
        0 < total_base,
        0 < total_quote,
    ensures
        0 <= (quote * total_base) / total_quote,
        0 <= (base * total_quote) / total_base,
        quote < (base * total_quote) / total_base ==> (quote * total_base) / total_quote <= base,
{
    let quote_optimal = (base * total_quote) / total_base;
    let base_optimal = (quote * total_base) / total_quote;
    lemma_fundamental_div_mod(base * total_quote, total_base);
    lemma_fundamental_div_mod(quote * total_base, total_quote);
    assert(0 <= base * total_quote && 0 <= quote * total_base) by (nonlinear_arith)
        requires
            0 <= base,
            0 <= quote,
            0 < total_base,
            0 < total_quote,
    ;
    lemma_div_is_ordered(0, base * total_quote, total_base);
    lemma_div_is_ordered(0, quote * total_base, total_quote);
    if quote < quote_optimal {
        assert(base_optimal <= base) by (nonlinear_arith)
            requires
                base * total_quote == total_base * quote_optimal + (base * total_quote) % total_base,
                quote * total_base == total_quote * base_optimal + (quote * total_base) % total_quote,
                0 <= (base * total_quote) % total_base,
                0 <= (quote * total_base) % total_quote,
                quote + 1 <= quote_optimal,
                0 < total_base,
                0 < total_quote,
                0 <= base,
                0 <= quote,
        ;
    }
}

} // verus!
