//! What the pool program records of each request it served.

use vstd::prelude::*;
use vstd::std_specs::convert::FromSpecImpl;
use crate::amm::SwapResult;
use crate::instructions::ProtocolFeeRecipientParams;
use crate::Pubkey;

verus! {

/// What every record starts with.
#[derive(Debug, Clone, Copy)]
pub struct PlasmaEventHeader {
    pub sequence_number: u64,
    pub slot: u64,
    pub timestamp: i64,
    pub pool: Pubkey,
    pub signer: Pubkey,
    pub base_decimals: u8,
    pub quote_decimals: u8,
}

/// A record: the header and what the request did. The variants stand in
/// the order of the requests' numbers.
#[derive(Debug, Clone, Copy)]
#[allow(inconsistent_fields)]
pub enum PlasmaEvent {
    Swap { header: PlasmaEventHeader, event: SwapEvent },
    AddLiquidity { header: PlasmaEventHeader, event: AddLiquidityEvent },
    RemoveLiquidity { header: PlasmaEventHeader, event: RemoveLiquidityEvent },
    RenounceLiquidity { header: PlasmaEventHeader, event: RenounceLiquidityEvent },
    WithdrawLpFees { header: PlasmaEventHeader, event: WithdrawLpFeesEvent },
    InitializeLpPosition { header: PlasmaEventHeader, event: InitializeLpPositionEvent },
    InitializePool { header: PlasmaEventHeader, event: InitializePoolEvent },
    WithdrawProtocolFees { header: PlasmaEventHeader, event: WithdrawProtocolFeesEvent },
    /// Never recorded: it keeps the numbers of the variants in step with
    /// those of the requests.
    Log { header: PlasmaEventHeader, event: () },
    TransferLiquidity { header: PlasmaEventHeader, event: TransferLiquidityEvent },
}

#[derive(Debug, Clone, Copy)]
pub struct SwapEvent {
    pub swap_sequence_number: u64,
    pub pre_base_liquidity: u64,
    pub pre_quote_liquidity: u64,
    pub post_base_liquidity: u64,
    pub post_quote_liquidity: u64,
    pub snapshot_base_liquidity: u64,
    pub snapshot_quote_liquidity: u64,
    pub swap_result: SwapResult,
}

#[derive(Debug, Clone, Copy)]
pub struct AddLiquidityEvent {
    pub pool_total_lp_shares: u64,
    pub pool_total_base_liquidity: u64,
    pub pool_total_quote_liquitidy: u64,
    pub snapshot_base_liquidity: u64,
    pub snapshot_quote_liquidity: u64,
    pub user_lp_shares_received: u64,
    pub user_lp_shares_available: u64,
    pub user_lp_shares_locked: u64,
    pub user_lp_shares_unlocked_for_withdrawal: u64,
    pub user_base_deposited: u64,
    pub user_quote_deposited: u64,
    pub user_total_withdrawable_base: u64,
    pub user_total_withdrawable_quote: u64,
}

#[derive(Debug, Clone, Copy)]
pub struct RemoveLiquidityEvent {
    pub pool_total_lp_shares: u64,
    pub pool_total_base_liquidity: u64,
    pub pool_total_quote_liquitidy: u64,
    pub snapshot_base_liquidity: u64,
    pub snapshot_quote_liquidity: u64,
    pub user_lp_shares_burned: u64,
    pub user_lp_shares_available: u64,
    pub user_lp_shares_locked: u64,
    pub user_lp_shares_unlocked_for_withdrawal: u64,
    pub user_base_withdrawn: u64,
    pub user_quote_withdrawn: u64,
    pub user_total_withdrawable_base: u64,
    pub user_total_withdrawable_quote: u64,
}

#[derive(Debug, Clone, Copy)]
pub struct RenounceLiquidityEvent {
    pub allow_fee_withdrawal: bool,
}

#[derive(Debug, Clone, Copy)]
pub struct InitializeLpPositionEvent {
    pub owner: Pubkey,
}

#[derive(Debug, Clone, Copy)]
pub struct WithdrawLpFeesEvent {
    pub fees_withdrawn: u64,
}

#[derive(Debug, Clone, Copy)]
pub struct InitializePoolEvent {
    pub lp_fee_in_bps: u64,
    pub protocol_fee_in_pct: u64,
    pub fee_recipient_params: [ProtocolFeeRecipientParams; 3],
}

#[derive(Debug, Clone, Copy)]
pub struct WithdrawProtocolFeesEvent {
    pub protocol_fee_recipient: Pubkey,
    pub fees_withdrawn: u64,
}

#[derive(Debug, Clone, Copy)]
pub struct TransferLiquidityEvent {
    pub src: Pubkey,
    pub dst: Pubkey,
    pub lp_shares_transferred: u64,
}

impl From<(PlasmaEventHeader, SwapEvent)> for PlasmaEvent {
    fn from(value: (PlasmaEventHeader, SwapEvent)) -> (r: Self) {
        PlasmaEvent::Swap { header: value.0, event: value.1 }
    }
}

impl FromSpecImpl<(PlasmaEventHeader, SwapEvent)> for PlasmaEvent {
    open spec fn obeys_from_spec() -> bool {
        true
    }

    open spec fn from_spec(value: (PlasmaEventHeader, SwapEvent)) -> Self {
        PlasmaEvent::Swap { header: value.0, event: value.1 }
    }
}

impl From<(PlasmaEventHeader, AddLiquidityEvent)> for PlasmaEvent {
    fn from(value: (PlasmaEventHeader, AddLiquidityEvent)) -> (r: Self) {
        PlasmaEvent::AddLiquidity { header: value.0, event: value.1 }
    }
}

impl FromSpecImpl<(PlasmaEventHeader, AddLiquidityEvent)> for PlasmaEvent {
    open spec fn obeys_from_spec() -> bool {
        true
    }

    open spec fn from_spec(value: (PlasmaEventHeader, AddLiquidityEvent)) -> Self {
        PlasmaEvent::AddLiquidity { header: value.0, event: value.1 }
    }
}

impl From<(PlasmaEventHeader, RemoveLiquidityEvent)> for PlasmaEvent {
    fn from(value: (PlasmaEventHeader, RemoveLiquidityEvent)) -> (r: Self) {
        PlasmaEvent::RemoveLiquidity { header: value.0, event: value.1 }
    }
}

impl FromSpecImpl<(PlasmaEventHeader, RemoveLiquidityEvent)> for PlasmaEvent {
    open spec fn obeys_from_spec() -> bool {
        true
    }

    open spec fn from_spec(value: (PlasmaEventHeader, RemoveLiquidityEvent)) -> Self {
        PlasmaEvent::RemoveLiquidity { header: value.0, event: value.1 }
    }
}

impl From<(PlasmaEventHeader, RenounceLiquidityEvent)> for PlasmaEvent {
    fn from(value: (PlasmaEventHeader, RenounceLiquidityEvent)) -> (r: Self) {
        PlasmaEvent::RenounceLiquidity { header: value.0, event: value.1 }
    }
}

impl FromSpecImpl<(PlasmaEventHeader, RenounceLiquidityEvent)> for PlasmaEvent {
    open spec fn obeys_from_spec() -> bool {
        true
    }

    open spec fn from_spec(value: (PlasmaEventHeader, RenounceLiquidityEvent)) -> Self {
        PlasmaEvent::RenounceLiquidity { header: value.0, event: value.1 }
    }
}

impl From<(PlasmaEventHeader, WithdrawLpFeesEvent)> for PlasmaEvent {
    fn from(value: (PlasmaEventHeader, WithdrawLpFeesEvent)) -> (r: Self) {
        PlasmaEvent::WithdrawLpFees { header: value.0, event: value.1 }
    }
}

impl FromSpecImpl<(PlasmaEventHeader, WithdrawLpFeesEvent)> for PlasmaEvent {
    open spec fn obeys_from_spec() -> bool {
        true
    }

    open spec fn from_spec(value: (PlasmaEventHeader, WithdrawLpFeesEvent)) -> Self {
        PlasmaEvent::WithdrawLpFees { header: value.0, event: value.1 }
    }
}

impl From<(PlasmaEventHeader, InitializeLpPositionEvent)> for PlasmaEvent {
    fn from(value: (PlasmaEventHeader, InitializeLpPositionEvent)) -> (r: Self) {
        PlasmaEvent::InitializeLpPosition { header: value.0, event: value.1 }
    }
}

impl FromSpecImpl<(PlasmaEventHeader, InitializeLpPositionEvent)> for PlasmaEvent {
    open spec fn obeys_from_spec() -> bool {
        true
    }

    open spec fn from_spec(value: (PlasmaEventHeader, InitializeLpPositionEvent)) -> Self {
        PlasmaEvent::InitializeLpPosition { header: value.0, event: value.1 }
    }
}

impl From<(PlasmaEventHeader, InitializePoolEvent)> for PlasmaEvent {
    fn from(value: (PlasmaEventHeader, InitializePoolEvent)) -> (r: Self) {
        PlasmaEvent::InitializePool { header: value.0, event: value.1 }
    }
}

impl FromSpecImpl<(PlasmaEventHeader, InitializePoolEvent)> for PlasmaEvent {
    open spec fn obeys_from_spec() -> bool {
        true
    }

    open spec fn from_spec(value: (PlasmaEventHeader, InitializePoolEvent)) -> Self {
        PlasmaEvent::InitializePool { header: value.0, event: value.1 }
    }
}

impl From<(PlasmaEventHeader, WithdrawProtocolFeesEvent)> for PlasmaEvent {
    fn from(value: (PlasmaEventHeader, WithdrawProtocolFeesEvent)) -> (r: Self) {
        PlasmaEvent::WithdrawProtocolFees { header: value.0, event: value.1 }
    }
}

impl FromSpecImpl<(PlasmaEventHeader, WithdrawProtocolFeesEvent)> for PlasmaEvent {
    open spec fn obeys_from_spec() -> bool {
        true
    }

    open spec fn from_spec(value: (PlasmaEventHeader, WithdrawProtocolFeesEvent)) -> Self {
        PlasmaEvent::WithdrawProtocolFees { header: value.0, event: value.1 }
    }
}

impl From<(PlasmaEventHeader, TransferLiquidityEvent)> for PlasmaEvent {
    fn from(value: (PlasmaEventHeader, TransferLiquidityEvent)) -> (r: Self) {
        PlasmaEvent::TransferLiquidity { header: value.0, event: value.1 }
    }
}

impl FromSpecImpl<(PlasmaEventHeader, TransferLiquidityEvent)> for PlasmaEvent {
    open spec fn obeys_from_spec() -> bool {
        true
    }

    open spec fn from_spec(value: (PlasmaEventHeader, TransferLiquidityEvent)) -> Self {
        PlasmaEvent::TransferLiquidity { header: value.0, event: value.1 }
    }
}

} // verus!
