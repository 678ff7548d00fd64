//! One participant's position in a pool: the shares it owns, the batch of
//! shares that is still vesting, and the fees it has earned.

use vstd::prelude::*;
use crate::amm::{Amm, lemma_product_fits};
use crate::errors::PlasmaError;
use crate::fixed::{I80F48, scaled_floor};
use crate::SlotWindow;

verus! {

/// The one batch of shares that a position may have waiting to vest.
#[derive(Debug, Clone, Copy, PartialEq, Eq, Structural)]
pub struct PendingSharesToVest {
    pub deposit_slot: SlotWindow,
    pub lp_shares_to_vest: u64,
}

impl PendingSharesToVest {
    /// Whether a batch is outstanding.
    pub open spec fn outstanding(self) -> bool {
        self.lp_shares_to_vest > 0 || self.deposit_slot != 0
    }

    /// Whether a batch is outstanding and its window of `window` slots has
    /// passed at `slot`.
    pub open spec fn matured(self, slot: SlotWindow, window: u64) -> bool {
        self.outstanding() && self.deposit_slot + window <= slot
    }

    /// No batch.
    pub fn new() -> (r: Self)
        ensures
            r == (PendingSharesToVest { deposit_slot: 0, lp_shares_to_vest: 0 }),
            !r.outstanding(),
    {
        Self { deposit_slot: 0, lp_shares_to_vest: 0 }
    }

    pub fn is_vesting(&self) -> (r: bool)
        ensures
            r == self.outstanding(),
    {
        self.lp_shares_to_vest > 0 || self.deposit_slot != 0
    }

    /// Registers a batch of `lp_shares` deposited in `slot`, unless one is
    /// outstanding already.
    pub fn set(&mut self, slot: SlotWindow, lp_shares: u64) -> (r: Result<(), PlasmaError>)
        ensures
            old(self).outstanding() ==> r == Err::<(), PlasmaError>(
                PlasmaError::VestingPeriodNotOver,
            ) && *final(self) == *old(self),
            !old(self).outstanding() ==> r is Ok && *final(self) == (PendingSharesToVest {
                deposit_slot: slot,
                lp_shares_to_vest: lp_shares,
            }),
    {
        if !self.is_vesting() {
            self.deposit_slot = slot;
            self.lp_shares_to_vest = lp_shares;
            Ok(())
        } else {
            Err(PlasmaError::VestingPeriodNotOver)
        }
    }

    /// Releases the batch where its window has passed at `slot`, and returns
    /// the number of shares released. A younger batch stays.
    pub fn maybe_vest_shares(&mut self, slot: SlotWindow, amm: &Amm) -> (r: u64)
        ensures
            old(self).matured(slot, amm.lp_vesting_window) ==> r == old(self).lp_shares_to_vest
                && *final(self) == (PendingSharesToVest { deposit_slot: 0, lp_shares_to_vest: 0 }),
            !old(self).matured(slot, amm.lp_vesting_window) ==> r == 0 && *final(self) == *old(
                self,
            ),
    {
        if !self.is_vesting() {
            return 0;
        }
        if slot >= self.deposit_slot && slot - self.deposit_slot >= amm.lp_vesting_window {
            let lp_shares = self.lp_shares_to_vest;
            self.deposit_slot = 0;
            self.lp_shares_to_vest = 0;
            lp_shares
        } else {
            0
        }
    }

    /// Releases the batch whatever its age, and returns the number of shares
    /// released.
    pub fn force_vest_shares(&mut self) -> (r: u64)
        ensures
            r == old(self).lp_shares_to_vest,
            *final(self) == (PendingSharesToVest { deposit_slot: 0, lp_shares_to_vest: 0 }),
    {
        let lp_shares = self.lp_shares_to_vest;
        self.lp_shares_to_vest = 0;
        self.deposit_slot = 0;
        lp_shares
    }
}

/// What `add_liquidity` reports.
#[derive(Debug, Clone, Copy, PartialEq, Eq, Structural)]
pub struct AddLiquidityResult {
    pub base_amount_deposited: u64,
    pub quote_amount_deposited: u64,
    pub lp_shares_received: u64,
    pub lp_shares_vested: u64,
    pub quote_fees_accumulated: u64,
}

/// What `remove_liquidity` reports.
#[derive(Debug, Clone, Copy, PartialEq, Eq, Structural)]
pub struct RemoveLiquidityResult {
    pub base_amount_withdrawn: u64,
    pub quote_amount_withdrawn: u64,
    pub lp_shares_burned: u64,
    pub lp_shares_vested: u64,
    pub quote_fees_accumulated: u64,
}

/// The state of one position.
#[derive(Debug, Clone, Copy, PartialEq, Eq, Structural)]
pub struct LpPosition {
    /// The pool's reward factor when this position last accrued fees.
    pub reward_factor_snapshot: I80F48,
    /// All shares owned, vested or not.
    pub lp_shares: u64,
    /// The shares that can be withdrawn now.
    pub withdrawable_lp_shares: u64,
    /// Fees earned and not yet collected.
    pub uncollected_fees: u64,
    /// All fees ever collected.
    pub collected_fees: u64,
    pub pending_shares_to_vest: PendingSharesToVest,
}

impl LpPosition {
    /// Every share owned is either withdrawable or waiting to vest.
    pub open spec fn wf(self) -> bool {
        self.withdrawable_lp_shares + self.pending_shares_to_vest.lp_shares_to_vest
            == self.lp_shares
    }

    /// The shares that vest when the position is brought up to `slot`.
    pub open spec fn vesting_at(self, slot: SlotWindow, amm: Amm) -> u64 {
        if self.pending_shares_to_vest.matured(slot, amm.lp_vesting_window) {
            self.pending_shares_to_vest.lp_shares_to_vest
        } else {
            0
        }
    }

    /// How far the pool's reward factor is ahead of the position's snapshot,
    /// in multiples of 2^-48.
    pub open spec fn reward_delta(self, amm: Amm) -> int {
        amm.reward_factor.bits() - self.reward_factor_snapshot.bits()
    }

    /// The fees that the position has earned since its snapshot: the reward
    /// delta times the shares owned, rounded down.
    pub open spec fn accrual(self, amm: Amm) -> int {
        scaled_floor(self.reward_delta(amm), self.lp_shares as int)
    }

    /// What bringing the position up to date returns: the shares vested and
    /// the fees accrued.
    pub open spec fn preprocess_outcome(self, slot: SlotWindow, amm: Amm) -> Result<
        (u64, u64),
        PlasmaError,
    > {
        if self.withdrawable_lp_shares + self.vesting_at(slot, amm) > u64::MAX {
            Err(PlasmaError::Overflow)
        } else if self.reward_delta(amm) < 0 || self.reward_delta(amm) > i128::MAX {
            Err(PlasmaError::Overflow)
        } else if self.uncollected_fees + self.accrual(amm) > u64::MAX {
            Err(PlasmaError::Overflow)
        } else {
            Ok((self.vesting_at(slot, amm), self.accrual(amm) as u64))
        }
    }

    /// The position brought up to date, where that succeeds.
    pub open spec fn preprocessed(self, slot: SlotWindow, amm: Amm) -> LpPosition {
        LpPosition {
            reward_factor_snapshot: amm.reward_factor,
            lp_shares: self.lp_shares,
            withdrawable_lp_shares: (self.withdrawable_lp_shares + self.vesting_at(slot, amm)) as u64,
            uncollected_fees: (self.uncollected_fees + self.accrual(amm)) as u64,
            collected_fees: self.collected_fees,
            pending_shares_to_vest: if self.pending_shares_to_vest.matured(
                slot,
                amm.lp_vesting_window,
            ) {
                PendingSharesToVest { deposit_slot: 0, lp_shares_to_vest: 0 }
            } else {
                self.pending_shares_to_vest
            },
        }
    }

    /// An empty position that starts to accrue at `reward_factor`.
    pub fn new_with_reward_factor_snapshot(reward_factor: I80F48) -> (r: Self)
        ensures
            r == (LpPosition {
                reward_factor_snapshot: reward_factor,
                lp_shares: 0,
                withdrawable_lp_shares: 0,
                uncollected_fees: 0,
                collected_fees: 0,
                pending_shares_to_vest: PendingSharesToVest { deposit_slot: 0, lp_shares_to_vest: 0 },
            }),
            r.wf(),
    {
        Self {
            reward_factor_snapshot: reward_factor,
            lp_shares: 0,
            withdrawable_lp_shares: 0,
            uncollected_fees: 0,
            collected_fees: 0,
            pending_shares_to_vest: PendingSharesToVest::new(),
        }
    }

    pub fn is_empty(&self) -> (r: bool)
        ensures
            r == (self.lp_shares == 0),
    {
        self.lp_shares == 0
    }

    /// Brings the position up to `slot`: releases the pending batch where its
    /// window has passed, adds the fees earned since the snapshot to the
    /// uncollected fees, and moves the snapshot to the pool's reward factor.
    /// A failed call leaves the position as it was.
    pub fn preprocess_lp_position(&mut self, slot: SlotWindow, amm: &Amm) -> (r: Result<
        (u64, u64),
        PlasmaError,
    >)
        ensures
            r == old(self).preprocess_outcome(slot, *amm),
            r is Err ==> *final(self) == *old(self),
            r is Ok ==> *final(self) == old(self).preprocessed(slot, *amm),
            final(self).lp_shares == old(self).lp_shares,
            old(self).wf() ==> final(self).wf(),
    {
        let mut pending = self.pending_shares_to_vest;
        let vested_lp_shares = pending.maybe_vest_shares(slot, amm);
        let withdrawable = match self.withdrawable_lp_shares.checked_add(vested_lp_shares) {
            Some(sum) => sum,
            None => {
                return Err(PlasmaError::Overflow);
            },
        };
        let accumulated_reward = match amm.reward_factor.checked_sub(self.reward_factor_snapshot) {
            Ok(delta) => delta,
            Err(_) => {
                return Err(PlasmaError::Overflow);
            },
        };
        if accumulated_reward.is_negative() {
            return Err(PlasmaError::Overflow);
        }
        proof {
            lemma_accrual_not_negative(self.reward_delta(*amm), self.lp_shares as int);
        }
        let fees = match accumulated_reward.mul_floor(self.lp_shares) {
            Ok(fees) => fees,
            Err(_) => {
                return Err(PlasmaError::Overflow);
            },
        };
        let uncollected = match self.uncollected_fees.checked_add(fees) {
            Some(sum) => sum,
            None => {
                return Err(PlasmaError::Overflow);
            },
        };
        self.pending_shares_to_vest = pending;
        self.withdrawable_lp_shares = withdrawable;
        self.reward_factor_snapshot = amm.reward_factor;
        self.uncollected_fees = uncollected;
        Ok((vested_lp_shares, fees))
    }
}

impl LpPosition {
    /// What `add_liquidity` returns.
    pub open spec fn add_liquidity_outcome(
        self,
        slot: SlotWindow,
        amm: Amm,
        base_amount_desired: u64,
        quote_amount_desired: u64,
        initial_lp_shares: Option<u64>,
    ) -> Result<AddLiquidityResult, PlasmaError> {
        match self.preprocess_outcome(slot, amm) {
            Err(e) => Err(e),
            Ok((vested, fees)) => match amm.mint_outcome(
                base_amount_desired,
                quote_amount_desired,
                initial_lp_shares,
            ) {
                Err(e) => Err(e),
                Ok((base, quote, shares)) => if self.preprocessed(
                    slot,
                    amm,
                ).pending_shares_to_vest.outstanding() {
                    Err(PlasmaError::VestingPeriodNotOver)
                } else if self.lp_shares + shares > u64::MAX {
                    Err(PlasmaError::Overflow)
                } else {
                    Ok(
                        AddLiquidityResult {
                            base_amount_deposited: base,
                            quote_amount_deposited: quote,
                            lp_shares_received: shares,
                            lp_shares_vested: vested,
                            quote_fees_accumulated: fees,
                        },
                    )
                },
            },
        }
    }

    /// The position after it was brought up to `slot` and then received
    /// `shares` as a new batch deposited in `slot`.
    pub open spec fn after_deposit(self, slot: SlotWindow, amm: Amm, shares: u64) -> LpPosition {
        let current = self.preprocessed(slot, amm);
        LpPosition {
            lp_shares: (current.lp_shares + shares) as u64,
            pending_shares_to_vest: PendingSharesToVest {
                deposit_slot: slot,
                lp_shares_to_vest: shares,
            },
            ..current
        }
    }

    /// What `remove_liquidity` returns.
    pub open spec fn remove_liquidity_outcome(
        self,
        slot: SlotWindow,
        amm: Amm,
        lp_shares: u64,
    ) -> Result<RemoveLiquidityResult, PlasmaError> {
        match self.preprocess_outcome(slot, amm) {
            Err(e) => Err(e),
            Ok((vested, fees)) => if lp_shares > self.preprocessed(
                slot,
                amm,
            ).withdrawable_lp_shares {
                Ok(
                    RemoveLiquidityResult {
                        base_amount_withdrawn: 0,
                        quote_amount_withdrawn: 0,
                        lp_shares_burned: 0,
                        lp_shares_vested: vested,
                        quote_fees_accumulated: fees,
                    },
                )
            } else {
                match amm.burn_outcome(lp_shares) {
                    Err(e) => Err(e),
                    Ok((base, quote)) => if lp_shares > self.lp_shares {
                        Err(PlasmaError::Underflow)
                    } else {
                        Ok(
                            RemoveLiquidityResult {
                                base_amount_withdrawn: base,
                                quote_amount_withdrawn: quote,
                                lp_shares_burned: lp_shares,
                                lp_shares_vested: vested,
                                quote_fees_accumulated: fees,
                            },
                        )
                    },
                }
            },
        }
    }

    /// The position after it was brought up to `slot` and then gave up
    /// `shares` of its withdrawable shares.
    pub open spec fn after_withdrawal(self, slot: SlotWindow, amm: Amm, shares: u64) -> LpPosition {
        let current = self.preprocessed(slot, amm);
        LpPosition {
            lp_shares: (current.lp_shares - shares) as u64,
            withdrawable_lp_shares: (current.withdrawable_lp_shares - shares) as u64,
            ..current
        }
    }

    /// What `transfer_liquidity` returns, for the source `self` and the
    /// destination `dst`.
    pub open spec fn transfer_liquidity_outcome(
        self,
        slot: SlotWindow,
        amm: Amm,
        dst: LpPosition,
    ) -> Result<u64, PlasmaError> {
        match self.preprocess_outcome(slot, amm) {
            Err(e) => Err(e),
            Ok(_) => match dst.preprocess_outcome(slot, amm) {
                Err(e) => Err(e),
                Ok(_) => {
                    let src = self.preprocessed(slot, amm);
                    let held = src.withdrawable_lp_shares
                        + src.pending_shares_to_vest.lp_shares_to_vest;
                    if dst.lp_shares != 0 {
                        Err(PlasmaError::InvariantViolation(dst.lp_shares as u128, 0))
                    } else if held != src.lp_shares {
                        Err(PlasmaError::InvariantViolation(held as u128, src.lp_shares as u128))
                    } else {
                        Ok(src.lp_shares)
                    }
                },
            },
        }
    }

    /// The source of a transfer afterwards: up to date, and without shares.
    pub open spec fn after_transfer_out(self, slot: SlotWindow, amm: Amm) -> LpPosition {
        LpPosition {
            lp_shares: 0,
            withdrawable_lp_shares: 0,
            pending_shares_to_vest: PendingSharesToVest { deposit_slot: 0, lp_shares_to_vest: 0 },
            ..self.preprocessed(slot, amm)
        }
    }

    /// The destination of a transfer afterwards: up to date, with `shares`
    /// as a batch that starts to vest in `slot`.
    pub open spec fn after_transfer_in(self, slot: SlotWindow, amm: Amm, shares: u64) -> LpPosition {
        LpPosition {
            lp_shares: shares,
            pending_shares_to_vest: PendingSharesToVest {
                deposit_slot: slot,
                lp_shares_to_vest: shares,
            },
            ..self.preprocessed(slot, amm)
        }
    }

    /// What `collect_fees` returns.
    pub open spec fn collect_fees_outcome(self, slot: SlotWindow, amm: Amm) -> Result<
        u64,
        PlasmaError,
    > {
        match self.preprocess_outcome(slot, amm) {
            Err(e) => Err(e),
            Ok(_) => {
                let current = self.preprocessed(slot, amm);
                if current.collected_fees + current.uncollected_fees > u64::MAX {
                    Err(PlasmaError::Overflow)
                } else {
                    Ok(current.uncollected_fees)
                }
            },
        }
    }

    /// The position after its fees were collected at `slot`.
    pub open spec fn after_collection(self, slot: SlotWindow, amm: Amm) -> LpPosition {
        let current = self.preprocessed(slot, amm);
        LpPosition {
            uncollected_fees: 0,
            collected_fees: (current.collected_fees + current.uncollected_fees) as u64,
            ..current
        }
    }

    /// The part of each reserve that the withdrawable shares stand for,
    /// rounded down.
    pub fn get_withdrawable_base_and_quote_amounts(&self, amm: &Amm) -> (r: (u64, u64))
        requires
            amm.total_lp_shares > 0,
            (self.withdrawable_lp_shares * amm.base_reserves) / (amm.total_lp_shares as int)
                <= u64::MAX,
            (self.withdrawable_lp_shares * amm.quote_reserves) / (amm.total_lp_shares as int)
                <= u64::MAX,
        ensures
            r.0 == (self.withdrawable_lp_shares * amm.base_reserves) / (
            amm.total_lp_shares as int),
            r.1 == (self.withdrawable_lp_shares * amm.quote_reserves) / (
            amm.total_lp_shares as int),
    {
        let shares: u128 = self.withdrawable_lp_shares as u128;
        let total: u128 = amm.total_lp_shares as u128;
        let base: u128 = amm.base_reserves as u128;
        let quote: u128 = amm.quote_reserves as u128;
        proof {
            lemma_product_fits(shares as int, base as int);
            lemma_product_fits(shares as int, quote as int);
        }
        let base_amount: u128 = shares * base / total;
        let quote_amount: u128 = shares * quote / total;
        (base_amount as u64, quote_amount as u64)
    }

    /// Brings the position up to date, deposits into the pool, and registers
    /// the shares minted as the position's vesting batch. The shares count as
    /// owned at once. A failed call leaves position and pool as they were.
    pub fn add_liquidity(
        &mut self,
        slot: SlotWindow,
        amm: &mut Amm,
        base_amount_desired: u64,
        quote_amount_desired: u64,
        initial_lp_shares: Option<u64>,
    ) -> (r: Result<AddLiquidityResult, PlasmaError>)
        ensures
            r == old(self).add_liquidity_outcome(
                slot,
                *old(amm),
                base_amount_desired,
                quote_amount_desired,
                initial_lp_shares,
            ),
            r is Err ==> *final(self) == *old(self) && *final(amm) == *old(amm),
            r is Ok ==> *final(self) == old(self).after_deposit(
                slot,
                *old(amm),
                r->Ok_0.lp_shares_received,
            ) && *final(amm) == old(amm).minted(
                slot,
                r->Ok_0.base_amount_deposited,
                r->Ok_0.quote_amount_deposited,
                r->Ok_0.lp_shares_received,
            ),
            final(self).lp_shares - old(self).lp_shares == final(amm).total_lp_shares
                - old(amm).total_lp_shares,
            old(self).wf() ==> final(self).wf(),
    {
        let mut position = *self;
        let mut pool = *amm;
        let (lp_shares_vested, quote_fees_accumulated) = match position.preprocess_lp_position(
            slot,
            &pool,
        ) {
            Ok(pair) => pair,
            Err(e) => {
                return Err(e);
            },
        };
        let (base_amount_deposited, quote_amount_deposited, lp_shares_received) = match pool.mint(
            slot,
            base_amount_desired,
            quote_amount_desired,
            initial_lp_shares,
        ) {
            Ok(triple) => triple,
            Err(e) => {
                return Err(e);
            },
        };
        match position.pending_shares_to_vest.set(slot, lp_shares_received) {
            Ok(()) => {},
            Err(e) => {
                return Err(e);
            },
        }
        position.lp_shares = match position.lp_shares.checked_add(lp_shares_received) {
            Some(sum) => sum,
            None => {
                return Err(PlasmaError::Overflow);
            },
        };
        *self = position;
        *amm = pool;
        Ok(
            AddLiquidityResult {
                base_amount_deposited,
                quote_amount_deposited,
                lp_shares_received,
                lp_shares_vested,
                quote_fees_accumulated,
            },
        )
    }

    /// Brings the position up to date and burns `lp_shares` of its
    /// withdrawable shares. A request for more than is withdrawable burns
    /// nothing and is no failure: the position is brought up to date and the
    /// pool stays as it was. A failed call leaves position and pool as they
    /// were.
    pub fn remove_liquidity(&mut self, slot: SlotWindow, amm: &mut Amm, lp_shares: u64) -> (r:
        Result<RemoveLiquidityResult, PlasmaError>)
        ensures
            r == old(self).remove_liquidity_outcome(slot, *old(amm), lp_shares),
            r is Err ==> *final(self) == *old(self) && *final(amm) == *old(amm),
            r is Ok && r->Ok_0.lp_shares_burned == 0 && lp_shares > 0 ==> *final(self) == old(
                self,
            ).preprocessed(slot, *old(amm)) && *final(amm) == *old(amm),
            r is Ok && !(r->Ok_0.lp_shares_burned == 0 && lp_shares > 0) ==> *final(self) == old(
                self,
            ).after_withdrawal(slot, *old(amm), lp_shares) && *final(amm) == old(amm).burned(
                slot,
                r->Ok_0.base_amount_withdrawn,
                r->Ok_0.quote_amount_withdrawn,
                lp_shares,
            ),
            old(self).lp_shares - final(self).lp_shares == old(amm).total_lp_shares
                - final(amm).total_lp_shares,
            old(self).wf() ==> final(self).wf(),
    {
        let mut position = *self;
        let mut pool = *amm;
        let (lp_shares_vested, quote_fees_accumulated) = match position.preprocess_lp_position(
            slot,
            &pool,
        ) {
            Ok(pair) => pair,
            Err(e) => {
                return Err(e);
            },
        };
        if lp_shares > position.withdrawable_lp_shares {
            *self = position;
            return Ok(
                RemoveLiquidityResult {
                    base_amount_withdrawn: 0,
                    quote_amount_withdrawn: 0,
                    lp_shares_burned: 0,
                    lp_shares_vested,
                    quote_fees_accumulated,
                },
            );
        }
        let (base_amount_withdrawn, quote_amount_withdrawn) = match pool.burn(slot, lp_shares) {
            Ok(pair) => pair,
            Err(e) => {
                return Err(e);
            },
        };
        if lp_shares > position.lp_shares {
            return Err(PlasmaError::Underflow);
        }
        position.withdrawable_lp_shares = position.withdrawable_lp_shares - lp_shares;
        position.lp_shares = position.lp_shares - lp_shares;
        *self = position;
        *amm = pool;
        Ok(
            RemoveLiquidityResult {
                base_amount_withdrawn,
                quote_amount_withdrawn,
                lp_shares_burned: lp_shares,
                lp_shares_vested,
                quote_fees_accumulated,
            },
        )
    }

    /// Moves all shares of this position to the empty position `dst`, where
    /// they start to vest anew in `slot`. Both positions are brought up to
    /// date first. A failed call leaves both positions as they were.
    pub fn transfer_liquidity(&mut self, slot: SlotWindow, amm: &Amm, dst: &mut LpPosition) -> (r:
        Result<u64, PlasmaError>)
        ensures
            r == old(self).transfer_liquidity_outcome(slot, *amm, *old(dst)),
            r is Err ==> *final(self) == *old(self) && *final(dst) == *old(dst),
            r is Ok ==> *final(self) == old(self).after_transfer_out(slot, *amm) && *final(dst)
                == old(dst).after_transfer_in(slot, *amm, r->Ok_0),
            final(self).lp_shares + final(dst).lp_shares == old(self).lp_shares
                + old(dst).lp_shares,
            old(self).wf() ==> final(self).wf(),
            old(dst).wf() ==> final(dst).wf(),
    {
        let mut source = *self;
        let mut target = *dst;
        match source.preprocess_lp_position(slot, amm) {
            Ok(_) => {},
            Err(e) => {
                return Err(e);
            },
        }
        match target.preprocess_lp_position(slot, amm) {
            Ok(_) => {},
            Err(e) => {
                return Err(e);
            },
        }
        if !target.is_empty() {
            return Err(PlasmaError::InvariantViolation(target.lp_shares as u128, 0));
        }
        let total_withdrawable_lp_shares: u128 = source.withdrawable_lp_shares as u128
            + source.pending_shares_to_vest.lp_shares_to_vest as u128;
        if total_withdrawable_lp_shares != source.lp_shares as u128 {
            return Err(
                PlasmaError::InvariantViolation(
                    total_withdrawable_lp_shares,
                    source.lp_shares as u128,
                ),
            );
        }
        source.pending_shares_to_vest.force_vest_shares();
        let lp_shares_transferred = source.lp_shares;
        source.withdrawable_lp_shares = 0;
        source.lp_shares = 0;
        target.pending_shares_to_vest = PendingSharesToVest {
            deposit_slot: slot,
            lp_shares_to_vest: lp_shares_transferred,
        };
        target.lp_shares = lp_shares_transferred;
        *self = source;
        *dst = target;
        Ok(lp_shares_transferred)
    }

    /// Brings the position up to date and moves its uncollected fees to the
    /// collected ones. Returns the amount that is now owed to the owner. A
    /// failed call leaves the position as it was.
    pub fn collect_fees(&mut self, slot: SlotWindow, amm: &Amm) -> (r: Result<u64, PlasmaError>)
        ensures
            r == old(self).collect_fees_outcome(slot, *amm),
            r is Err ==> *final(self) == *old(self),
            r is Ok ==> *final(self) == old(self).after_collection(slot, *amm),
            final(self).lp_shares == old(self).lp_shares,
            final(self).collected_fees >= old(self).collected_fees,
            old(self).wf() ==> final(self).wf(),
    {
        let mut position = *self;
        match position.preprocess_lp_position(slot, amm) {
            Ok(_) => {},
            Err(e) => {
                return Err(e);
            },
        }
        let fees = position.uncollected_fees;
        position.collected_fees = match position.collected_fees.checked_add(fees) {
            Some(sum) => sum,
            None => {
                return Err(PlasmaError::Overflow);
            },
        };
        position.uncollected_fees = 0;
        *self = position;
        Ok(fees)
    }
}

/// A reward delta that is not negative earns fees that are not negative.
pub proof fn lemma_accrual_not_negative(delta: int, shares: int)
    requires
        0 <= delta,
        0 <= shares,
    ensures
        0 <= scaled_floor(delta, shares),
{
    assert(0 <= delta * shares) by (nonlinear_arith)
        requires
            0 <= delta,
            0 <= shares,
    ;
    vstd::arithmetic::div_mod::lemma_div_is_ordered(0, delta * shares, crate::fixed::ONE_BITS as int);
}

} // verus!
