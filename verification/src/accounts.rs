//! The records of a pool: its header with the ledger of protocol fees, and
//! the pool as a whole.

use vstd::prelude::*;
use vstd::arithmetic::div_mod::{lemma_div_is_ordered, lemma_fundamental_div_mod};
use crate::amm::{Amm, SwapResult, lemma_product_fits};
use crate::errors::PlasmaError;
use crate::instructions::{ProtocolFeeRecipientParams, SwapParams};
use crate::Pubkey;
use crate::SlotWindow;

verus! {

/// The size of a pool record in bytes.
pub const POOL_LEN: u64 = 624;

/// The type tag at the start of a pool record.
pub const POOL_DISCRIMINATOR: [u8; 8] = [116, 210, 187, 119, 196, 196, 52, 137];

/// A position as it is stored: the reward factor snapshot as its bits, the
/// pending batch as deposit slot and shares.
#[derive(Debug, Clone, Copy)]
pub struct LpPosition {
    pub reward_factor_snapshot: i128,
    pub lp_shares: u64,
    pub withdrawable_lp_shares: u64,
    pub uncollected_fees: u64,
    pub collected_fees: u64,
    pub pending_shares_to_vest: (u64, u64),
}

#[derive(Debug, Clone, Copy)]
pub struct TokenParams {
    /// Number of decimals of the token.
    pub decimals: u32,
    /// The nonce with which the vault's address was derived.
    pub vault_bump: u32,
    pub mint_key: Pubkey,
    pub vault_key: Pubkey,
}

/// One party with a weight in the protocol's fees.
#[derive(Debug, Clone, Copy)]
pub struct ProtocolFeeRecipient {
    pub recipient: Pubkey,
    /// The weight of this recipient among the three.
    pub shares: u64,
    pub total_accumulated_quote_fees: u64,
    pub collected_quote_fees: u64,
}

/// The three recipients of the protocol's fees.
#[derive(Debug, Clone, Copy)]
pub struct ProtocolFeeRecipients {
    pub recipients: [ProtocolFeeRecipient; 3],
}

#[derive(Debug, Clone, Copy)]
pub struct PoolHeader {
    pub discriminator: [u8; 8],
    pub sequence_number: u64,
    pub base_params: TokenParams,
    pub quote_params: TokenParams,
    pub fee_recipients: ProtocolFeeRecipients,
    /// The number of swaps done so far.
    pub swap_sequence_number: u64,
}

/// A pool: its header and its reserves.
#[derive(Debug, Clone, Copy)]
pub struct Pool {
    pub header: PoolHeader,
    pub amm: Amm,
}

impl Default for ProtocolFeeRecipient {
    /// An empty slot: the zero identity, no weight, nothing accumulated.
    fn default() -> (r: Self)
        ensures
            r == (ProtocolFeeRecipient {
                recipient: crate::instructions::SYSTEM_PROGRAM_ID,
                shares: 0,
                total_accumulated_quote_fees: 0,
                collected_quote_fees: 0,
            }),
    {
        ProtocolFeeRecipient {
            recipient: crate::instructions::SYSTEM_PROGRAM_ID,
            shares: 0,
            total_accumulated_quote_fees: 0,
            collected_quote_fees: 0,
        }
    }
}

impl Default for ProtocolFeeRecipients {
    /// Three empty slots.
    fn default() -> (r: Self)
        ensures
            forall|i: int|
                0 <= i < 3 ==> #[trigger] r.recipients[i] == (ProtocolFeeRecipient {
                    recipient: crate::instructions::SYSTEM_PROGRAM_ID,
                    shares: 0,
                    total_accumulated_quote_fees: 0,
                    collected_quote_fees: 0,
                }),
    {
        let empty = ProtocolFeeRecipient::default();
        ProtocolFeeRecipients { recipients: [empty, empty, empty] }
    }
}

/// Whether two identities are the same.
pub fn same_key(a: &Pubkey, b: &Pubkey) -> (r: bool)
    ensures
        r == (a@ == b@),
{
    let mut i: usize = 0;
    while i < 32
        invariant
            0 <= i <= 32,
            forall|j: int| 0 <= j < i ==> a@[j] == b@[j],
        decreases 32 - i,
    {
        if a[i] != b[i] {
            return false;
        }
        i = i + 1;
    }
    assert(a@ =~= b@);
    true
}

impl ProtocolFeeRecipient {
    /// What the recipient has accumulated and not collected.
    pub open spec fn owed(self) -> int {
        self.total_accumulated_quote_fees - self.collected_quote_fees
    }

    /// The recipient with `amount` more accumulated.
    pub open spec fn credited(self, amount: int) -> Self {
        ProtocolFeeRecipient {
            total_accumulated_quote_fees: (self.total_accumulated_quote_fees + amount) as u64,
            ..self
        }
    }

    /// The recipient with all that it accumulated collected.
    pub open spec fn paid_out(self) -> Self {
        ProtocolFeeRecipient { collected_quote_fees: self.total_accumulated_quote_fees, ..self }
    }
}

impl ProtocolFeeRecipients {
    /// No recipient has collected more than it accumulated.
    pub open spec fn wf(self) -> bool {
        forall|i: int|
            0 <= i < 3 ==> (#[trigger] self.recipients[i]).collected_quote_fees
                <= self.recipients[i].total_accumulated_quote_fees
    }

    /// The sum of the three weights.
    pub open spec fn total_weight(self) -> int {
        self.recipients[0].shares + self.recipients[1].shares + self.recipients[2].shares
    }

    /// The part of `fee` that goes to the recipient in slot `i`: the fee
    /// times its weight over the sum of the weights, rounded down; nothing
    /// where no weight is set.
    pub open spec fn split(self, i: int, fee: u64) -> int {
        if self.total_weight() == 0 {
            0
        } else {
            (fee * self.recipients[i].shares) / self.total_weight()
        }
    }

    /// What `distribute` returns: the part of `fee` that rounding left with
    /// no recipient.
    pub open spec fn distribute_outcome(self, fee: u64) -> Result<u64, PlasmaError> {
        if self.recipients[0].total_accumulated_quote_fees + self.split(0, fee) > u64::MAX
            || self.recipients[1].total_accumulated_quote_fees + self.split(1, fee) > u64::MAX
            || self.recipients[2].total_accumulated_quote_fees + self.split(2, fee) > u64::MAX {
            Err(PlasmaError::Overflow)
        } else {
            Ok((fee - self.split(0, fee) - self.split(1, fee) - self.split(2, fee)) as u64)
        }
    }

    /// Whether `after` is this ledger with `fee` split among the recipients.
    pub open spec fn credits(self, after: Self, fee: u64) -> bool {
        forall|i: int|
            0 <= i < 3 ==> #[trigger] after.recipients[i] == self.recipients[i].credited(
                self.split(i, fee),
            )
    }

    /// The first slot that holds the identity `key`, if one does.
    pub open spec fn slot_of(self, key: Pubkey) -> Option<int> {
        if self.recipients[0].recipient@ == key@ {
            Some(0)
        } else if self.recipients[1].recipient@ == key@ {
            Some(1)
        } else if self.recipients[2].recipient@ == key@ {
            Some(2)
        } else {
            None
        }
    }

    /// What `withdraw` returns.
    pub open spec fn withdraw_outcome(self, key: Pubkey) -> Result<u64, PlasmaError> {
        match self.slot_of(key) {
            None => Err(PlasmaError::IncorrectProtocolFeeRecipient),
            Some(i) => if self.recipients[i].owed() < 0 {
                Err(PlasmaError::Underflow)
            } else {
                Ok(self.recipients[i].owed() as u64)
            },
        }
    }

    /// Whether `after` is this ledger with the recipient `key` paid out.
    pub open spec fn pays_out(self, after: Self, key: Pubkey) -> bool {
        forall|i: int|
            0 <= i < 3 ==> #[trigger] after.recipients[i] == if self.slot_of(key) == Some(i) {
                self.recipients[i].paid_out()
            } else {
                self.recipients[i]
            }
    }

    /// The ledger at the start: the three recipients with their weights, and
    /// nothing accumulated.
    pub fn new(params: [ProtocolFeeRecipientParams; 3]) -> (r: Self)
        ensures
            forall|i: int|
                0 <= i < 3 ==> #[trigger] r.recipients[i] == (ProtocolFeeRecipient {
                    recipient: params[i].recipient,
                    shares: params[i].shares,
                    total_accumulated_quote_fees: 0,
                    collected_quote_fees: 0,
                }),
            r.wf(),
    {
        ProtocolFeeRecipients {
            recipients: [
                ProtocolFeeRecipient {
                    recipient: params[0].recipient,
                    shares: params[0].shares,
                    total_accumulated_quote_fees: 0,
                    collected_quote_fees: 0,
                },
                ProtocolFeeRecipient {
                    recipient: params[1].recipient,
                    shares: params[1].shares,
                    total_accumulated_quote_fees: 0,
                    collected_quote_fees: 0,
                },
                ProtocolFeeRecipient {
                    recipient: params[2].recipient,
                    shares: params[2].shares,
                    total_accumulated_quote_fees: 0,
                    collected_quote_fees: 0,
                },
            ],
        }
    }

    /// Splits `fee` among the recipients by weight and adds each part to
    /// what its recipient has accumulated. Returns what rounding left over,
    /// which is credited to nobody. A failed call leaves the ledger as it
    /// was.
    pub fn distribute(&mut self, fee: u64) -> (r: Result<u64, PlasmaError>)
        ensures
            r == old(self).distribute_outcome(fee),
            r is Err ==> *final(self) == *old(self),
            r is Ok ==> old(self).credits(*final(self), fee),
            r is Ok ==> r->Ok_0 <= fee,
            old(self).wf() ==> final(self).wf(),
    {
        let first = self.recipients[0];
        let second = self.recipients[1];
        let third = self.recipients[2];
        let weight: u128 = first.shares as u128 + second.shares as u128 + third.shares as u128;
        if weight == 0 {
            return Ok(fee);
        }
        let amount: u128 = fee as u128;
        proof {
            lemma_product_fits(amount as int, first.shares as int);
            lemma_product_fits(amount as int, second.shares as int);
            lemma_product_fits(amount as int, third.shares as int);
            lemma_splits_within(
                amount as int,
                first.shares as int,
                second.shares as int,
                third.shares as int,
            );
        }
        let part0: u128 = amount * (first.shares as u128) / weight;
        let part1: u128 = amount * (second.shares as u128) / weight;
        let part2: u128 = amount * (third.shares as u128) / weight;
        let limit: u128 = u64::MAX as u128;
        if first.total_accumulated_quote_fees as u128 + part0 > limit
            || second.total_accumulated_quote_fees as u128 + part1 > limit
            || third.total_accumulated_quote_fees as u128 + part2 > limit {
            return Err(PlasmaError::Overflow);
        }
        self.recipients = [
            ProtocolFeeRecipient {
                recipient: first.recipient,
                shares: first.shares,
                total_accumulated_quote_fees: (first.total_accumulated_quote_fees as u128
                    + part0) as u64,
                collected_quote_fees: first.collected_quote_fees,
            },
            ProtocolFeeRecipient {
                recipient: second.recipient,
                shares: second.shares,
                total_accumulated_quote_fees: (second.total_accumulated_quote_fees as u128
                    + part1) as u64,
                collected_quote_fees: second.collected_quote_fees,
            },
            ProtocolFeeRecipient {
                recipient: third.recipient,
                shares: third.shares,
                total_accumulated_quote_fees: (third.total_accumulated_quote_fees as u128
                    + part2) as u64,
                collected_quote_fees: third.collected_quote_fees,
            },
        ];
        Ok((amount - part0 - part1 - part2) as u64)
    }

    /// Pays out the recipient `key`: what it accumulated and has not
    /// collected counts as collected, and is returned. A failed call leaves
    /// the ledger as it was.
    pub fn withdraw(&mut self, key: &Pubkey) -> (r: Result<u64, PlasmaError>)
        ensures
            r == old(self).withdraw_outcome(*key),
            r is Err ==> *final(self) == *old(self),
            r is Ok ==> old(self).pays_out(*final(self), *key),
            old(self).wf() ==> final(self).wf(),
    {
        let first = self.recipients[0];
        let second = self.recipients[1];
        let third = self.recipients[2];
        let found: usize = if same_key(&first.recipient, key) {
            0
        } else if same_key(&second.recipient, key) {
            1
        } else if same_key(&third.recipient, key) {
            2
        } else {
            return Err(PlasmaError::IncorrectProtocolFeeRecipient);
        };
        let entry = self.recipients[found];
        if entry.collected_quote_fees > entry.total_accumulated_quote_fees {
            return Err(PlasmaError::Underflow);
        }
        let owed = entry.total_accumulated_quote_fees - entry.collected_quote_fees;
        self.recipients[found] = ProtocolFeeRecipient {
            recipient: entry.recipient,
            shares: entry.shares,
            total_accumulated_quote_fees: entry.total_accumulated_quote_fees,
            collected_quote_fees: entry.total_accumulated_quote_fees,
        };
        Ok(owed)
    }
}

impl Pool {
    /// The protocol's part of the fee of the swap `res`.
    pub open spec fn protocol_fee(self, res: SwapResult) -> u64 {
        self.amm.protocol_part(res.fee_in_quote) as u64
    }

    /// What `swap` returns.
    pub open spec fn swap_outcome(self, params: SwapParams) -> Result<SwapResult, PlasmaError> {
        match self.amm.swap_outcome(params.side, params.swap_type) {
            Err(e) => Err(e),
            Ok(res) => if self.header.fee_recipients.distribute_outcome(self.protocol_fee(res))
                is Err || self.header.swap_sequence_number + 1 > u64::MAX {
                Err(PlasmaError::Overflow)
            } else {
                Ok(res)
            },
        }
    }

    /// Swaps against the reserves, splits the protocol's part of the fee
    /// among the fee recipients, and counts the swap.
    ///
    /// The product of the reserves never falls. A failed call leaves the
    /// pool as it was.
    pub fn swap(&mut self, slot: SlotWindow, params: SwapParams) -> (r: Result<
        SwapResult,
        PlasmaError,
    >)
        ensures
            r == old(self).swap_outcome(params),
            r is Err ==> *final(self) == *old(self),
            r is Ok ==> final(self).amm == old(self).amm.swapped(slot, r->Ok_0),
            r is Ok ==> old(self).amm.k() <= final(self).amm.k(),
            r is Ok ==> old(self).header.fee_recipients.credits(
                final(self).header.fee_recipients,
                old(self).protocol_fee(r->Ok_0),
            ),
            r is Ok ==> final(self).header == (PoolHeader {
                fee_recipients: final(self).header.fee_recipients,
                swap_sequence_number: (old(self).header.swap_sequence_number + 1) as u64,
                ..old(self).header
            }),
    {
        let mut amm = self.amm;
        let mut fee_recipients = self.header.fee_recipients;
        let res = match amm.swap(slot, params.side, params.swap_type) {
            Ok(res) => res,
            Err(e) => {
                return Err(e);
            },
        };
        let protocol_fees = match amm.get_fee_splits(res.fee_in_quote) {
            Ok((_, protocol_fees)) => protocol_fees,
            Err(e) => {
                return Err(e);
            },
        };
        match fee_recipients.distribute(protocol_fees) {
            Ok(_) => {},
            Err(e) => {
                return Err(e);
            },
        }
        let swap_sequence_number = match self.header.swap_sequence_number.checked_add(1) {
            Some(n) => n,
            None => {
                return Err(PlasmaError::Overflow);
            },
        };
        self.amm = amm;
        self.header.fee_recipients = fee_recipients;
        self.header.swap_sequence_number = swap_sequence_number;
        Ok(res)
    }

    /// Pays out the fee recipient `recipient`. Fails where no slot of the
    /// ledger holds that identity.
    pub fn withdraw_protocol_fees(&mut self, recipient: &Pubkey) -> (r: Result<u64, PlasmaError>)
        ensures
            r == old(self).header.fee_recipients.withdraw_outcome(*recipient),
            r is Err ==> *final(self) == *old(self),
            r is Ok ==> old(self).header.fee_recipients.pays_out(
                final(self).header.fee_recipients,
                *recipient,
            ),
            r is Ok ==> *final(self) == (Pool {
                header: PoolHeader {
                    fee_recipients: final(self).header.fee_recipients,
                    ..old(self).header
                },
                amm: old(self).amm,
            }),
    {
        let mut fee_recipients = self.header.fee_recipients;
        let owed = match fee_recipients.withdraw(recipient) {
            Ok(owed) => owed,
            Err(e) => {
                return Err(e);
            },
        };
        self.header.fee_recipients = fee_recipients;
        Ok(owed)
    }
}

/// The parts of an amount split by three weights, each rounded down, are
/// not negative and together within the amount.
pub proof fn lemma_splits_within(amount: int, w0: int, w1: int, w2: int)
    requires
        0 <= amount,
        0 <= w0,
        0 <= w1,
        0 <= w2,
        0 < w0 + w1 + w2,
    ensures
        0 <= (amount * w0) / (w0 + w1 + w2),
        0 <= (amount * w1) / (w0 + w1 + w2),
        0 <= (amount * w2) / (w0 + w1 + w2),
        (amount * w0) / (w0 + w1 + w2) + (amount * w1) / (w0 + w1 + w2) + (amount * w2) / (w0
            + w1 + w2) <= amount,
{
    let w = w0 + w1 + w2;
    let q0 = (amount * w0) / w;
    let q1 = (amount * w1) / w;
    let q2 = (amount * w2) / w;
    lemma_fundamental_div_mod(amount * w0, w);
    lemma_fundamental_div_mod(amount * w1, w);
    lemma_fundamental_div_mod(amount * w2, w);
    assert(0 <= amount * w0 && 0 <= amount * w1 && 0 <= amount * w2) by (nonlinear_arith)
        requires
            0 <= amount,
            0 <= w0,
            0 <= w1,
            0 <= w2,
    ;
    lemma_div_is_ordered(0, amount * w0, w);
    lemma_div_is_ordered(0, amount * w1, w);
    lemma_div_is_ordered(0, amount * w2, w);
    assert(q0 + q1 + q2 <= amount) by (nonlinear_arith)
        requires
            amount * w0 == w * q0 + (amount * w0) % w,
            amount * w1 == w * q1 + (amount * w1) % w,
            amount * w2 == w * q2 + (amount * w2) % w,
            0 <= (amount * w0) % w,
            0 <= (amount * w1) % w,
            0 <= (amount * w2) % w,
            w == w0 + w1 + w2,
            0 < w,
            0 <= amount,
    ;
}

} // verus!
