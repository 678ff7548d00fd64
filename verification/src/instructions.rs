//! The requests that the pool program accepts, their parameters, and the
//! bytes in which both travel.

use vstd::prelude::*;
use vstd::bytes::{spec_u64_to_le_bytes, u64_to_le_bytes};
use crate::amm::Side;
use crate::{
    get_log_authority, get_lp_position_address, get_vault_address, log_seeds,
    lp_position_seeds, program_address, vault_seeds, Pubkey, ID,
};

verus! {

pub const SWAP_DISCRIMINATOR: u8 = 0;

pub const ADD_LIQUIDITY_DISCRIMINATOR: u8 = 1;

pub const REMOVE_LIQUIDITY_DISCRIMINATOR: u8 = 2;

pub const INITIALIZE_LP_POSITION_DISCRIMINATOR: u8 = 5;

pub const INITIALIZE_POOL_DISCRIMINATOR: u8 = 6;

pub const TRANSFER_LIQUIDITY_DISCRIMINATOR: u8 = 9;

/// The requests, in the order of their numbers: `Swap` is 0,
/// `TransferLiquidity` is 9.
#[derive(Debug, Clone, Copy, PartialEq, Eq, Structural)]
pub enum PlasmaInstruction {
    /// Send a swap order.
    Swap,
    /// Add liquidity to the pool.
    AddLiquidity,
    /// Remove liquidity from the pool.
    RemoveLiquidity,
    /// Renounce ownership of a position.
    RenounceLiquidity,
    /// Withdraw the fees that a position has earned.
    WithdrawLpFees,
    /// Create a position.
    InitializeLpPosition,
    /// Create a pool.
    InitializePool,
    /// Withdraw the fees of a protocol fee recipient.
    WithdrawProtocolFees,
    /// Write to the log.
    Log,
    /// Transfer liquidity between positions.
    TransferLiquidity,
}

/// A number that stands for no request.
#[derive(Debug, Clone, Copy, PartialEq, Eq, Structural)]
pub struct UnknownInstruction {
    pub number: u8,
}

impl PlasmaInstruction {
    /// The number of the request.
    pub open spec fn tag(self) -> u8 {
        match self {
            PlasmaInstruction::Swap => 0,
            PlasmaInstruction::AddLiquidity => 1,
            PlasmaInstruction::RemoveLiquidity => 2,
            PlasmaInstruction::RenounceLiquidity => 3,
            PlasmaInstruction::WithdrawLpFees => 4,
            PlasmaInstruction::InitializeLpPosition => 5,
            PlasmaInstruction::InitializePool => 6,
            PlasmaInstruction::WithdrawProtocolFees => 7,
            PlasmaInstruction::Log => 8,
            PlasmaInstruction::TransferLiquidity => 9,
        }
    }

    /// The request with the number `number`, if there is one.
    pub open spec fn with_tag(number: u8) -> Option<PlasmaInstruction> {
        if number == 0 {
            Some(PlasmaInstruction::Swap)
        } else if number == 1 {
            Some(PlasmaInstruction::AddLiquidity)
        } else if number == 2 {
            Some(PlasmaInstruction::RemoveLiquidity)
        } else if number == 3 {
            Some(PlasmaInstruction::RenounceLiquidity)
        } else if number == 4 {
            Some(PlasmaInstruction::WithdrawLpFees)
        } else if number == 5 {
            Some(PlasmaInstruction::InitializeLpPosition)
        } else if number == 6 {
            Some(PlasmaInstruction::InitializePool)
        } else if number == 7 {
            Some(PlasmaInstruction::WithdrawProtocolFees)
        } else if number == 8 {
            Some(PlasmaInstruction::Log)
        } else if number == 9 {
            Some(PlasmaInstruction::TransferLiquidity)
        } else {
            None
        }
    }

    pub fn discriminant(&self) -> (r: u8)
        ensures
            r == self.tag(),
    {
        match self {
            PlasmaInstruction::Swap => 0,
            PlasmaInstruction::AddLiquidity => 1,
            PlasmaInstruction::RemoveLiquidity => 2,
            PlasmaInstruction::RenounceLiquidity => 3,
            PlasmaInstruction::WithdrawLpFees => 4,
            PlasmaInstruction::InitializeLpPosition => 5,
            PlasmaInstruction::InitializePool => 6,
            PlasmaInstruction::WithdrawProtocolFees => 7,
            PlasmaInstruction::Log => 8,
            PlasmaInstruction::TransferLiquidity => 9,
        }
    }

    /// The request as the one byte that starts its data.
    pub fn to_vec(&self) -> (r: Vec<u8>)
        ensures
            r@ == seq![self.tag()],
    {
        let mut data: Vec<u8> = Vec::new();
        data.push(self.discriminant());
        assert(data@ =~= seq![self.tag()]);
        data
    }

    /// The request with the number `number`.
    pub fn from_number(number: u8) -> (r: Result<PlasmaInstruction, UnknownInstruction>)
        ensures
            r == match Self::with_tag(number) {
                Some(instruction) => Ok::<PlasmaInstruction, UnknownInstruction>(instruction),
                None => Err::<PlasmaInstruction, UnknownInstruction>(
                    UnknownInstruction { number },
                ),
            },
    {
        match number {
            0 => Ok(PlasmaInstruction::Swap),
            1 => Ok(PlasmaInstruction::AddLiquidity),
            2 => Ok(PlasmaInstruction::RemoveLiquidity),
            3 => Ok(PlasmaInstruction::RenounceLiquidity),
            4 => Ok(PlasmaInstruction::WithdrawLpFees),
            5 => Ok(PlasmaInstruction::InitializeLpPosition),
            6 => Ok(PlasmaInstruction::InitializePool),
            7 => Ok(PlasmaInstruction::WithdrawProtocolFees),
            8 => Ok(PlasmaInstruction::Log),
            9 => Ok(PlasmaInstruction::TransferLiquidity),
            _ => Err(UnknownInstruction { number }),
        }
    }
}

/// A request and its number determine each other.
pub proof fn lemma_tag_round_trip(instruction: PlasmaInstruction, number: u8)
    ensures
        PlasmaInstruction::with_tag(instruction.tag()) == Some(instruction),
        PlasmaInstruction::with_tag(number) matches Some(found) ==> found.tag() == number,
        PlasmaInstruction::with_tag(number) is Some <==> number <= 9,
{
}

impl TryFrom<u8> for PlasmaInstruction {
    type Error = UnknownInstruction;

    fn try_from(number: u8) -> (r: Result<Self, UnknownInstruction>) {
        PlasmaInstruction::from_number(number)
    }
}

impl vstd::std_specs::convert::TryFromSpecImpl<u8> for PlasmaInstruction {
    open spec fn obeys_try_from_spec() -> bool {
        true
    }

    open spec fn try_from_spec(number: u8) -> Result<Self, UnknownInstruction> {
        match Self::with_tag(number) {
            Some(instruction) => Ok(instruction),
            None => Err(UnknownInstruction { number }),
        }
    }
}

/// How a swap is bounded: by the amount paid or by the amount received.
#[derive(Debug, Clone, Copy, PartialEq, Eq, Structural)]
pub enum SwapType {
    /// Pay `amount_in` and receive at least `min_amount_out`.
    ExactIn { amount_in: u64, min_amount_out: u64 },
    /// Receive `amount_out` and pay at most `max_amount_in`.
    ExactOut { amount_out: u64, max_amount_in: u64 },
}

#[derive(Debug, Clone, Copy, PartialEq, Eq, Structural)]
pub struct SwapParams {
    pub side: Side,
    pub swap_type: SwapType,
}

/// One recipient of protocol fees and its weight, as a pool is set up with.
#[derive(Debug, Clone, Copy)]
pub struct ProtocolFeeRecipientParams {
    pub recipient: Pubkey,
    pub shares: u64,
}

#[derive(Debug, Clone, Copy)]
pub struct InitializePoolParams {
    pub lp_fee_in_bps: u64,
    pub protocol_fee_allocation_in_pct: u64,
    pub fee_recipients_params: [ProtocolFeeRecipientParams; 3],
    /// Over how many slots new shares vest.
    pub num_slots_to_vest_lp_shares: Option<u64>,
}

#[derive(Debug, Clone, Copy, PartialEq, Eq, Structural)]
pub struct AddLiquidityParams {
    pub desired_base_amount_in: u64,
    pub desired_quote_amount_in: u64,
    pub initial_lp_shares: Option<u64>,
}

impl Default for ProtocolFeeRecipientParams {
    /// The zero identity with no weight.
    fn default() -> (r: Self)
        ensures
            r == (ProtocolFeeRecipientParams { recipient: SYSTEM_PROGRAM_ID, shares: 0 }),
    {
        ProtocolFeeRecipientParams { recipient: SYSTEM_PROGRAM_ID, shares: 0 }
    }
}

impl Default for InitializePoolParams {
    /// No fees, no recipients, and no vesting window named.
    fn default() -> (r: Self)
        ensures
            r.lp_fee_in_bps == 0,
            r.protocol_fee_allocation_in_pct == 0,
            r.num_slots_to_vest_lp_shares is None,
            forall|i: int|
                0 <= i < 3 ==> #[trigger] r.fee_recipients_params[i] == (
                ProtocolFeeRecipientParams { recipient: SYSTEM_PROGRAM_ID, shares: 0 }),
    {
        let nobody = ProtocolFeeRecipientParams::default();
        InitializePoolParams {
            lp_fee_in_bps: 0,
            protocol_fee_allocation_in_pct: 0,
            fee_recipients_params: [nobody, nobody, nobody],
            num_slots_to_vest_lp_shares: None,
        }
    }
}

impl Default for AddLiquidityParams {
    /// Nothing offered and no shares named.
    fn default() -> (r: Self)
        ensures
            r == (AddLiquidityParams {
                desired_base_amount_in: 0,
                desired_quote_amount_in: 0,
                initial_lp_shares: None,
            }),
    {
        AddLiquidityParams {
            desired_base_amount_in: 0,
            desired_quote_amount_in: 0,
            initial_lp_shares: None,
        }
    }
}

/// An optional amount in bytes: a zero byte for none, else a one byte and
/// the amount in little-endian order.
pub open spec fn option_encoding(amount: Option<u64>) -> Seq<u8> {
    match amount {
        None => seq![0u8],
        Some(n) => seq![1u8] + spec_u64_to_le_bytes(n),
    }
}

/// Appends `amount` in little-endian order.
pub fn push_u64(data: &mut Vec<u8>, amount: u64)
    ensures
        final(data)@ == old(data)@ + spec_u64_to_le_bytes(amount),
{
    let mut bytes = u64_to_le_bytes(amount);
    data.append(&mut bytes);
}

/// Appends an optional amount.
pub fn push_option(data: &mut Vec<u8>, amount: Option<u64>)
    ensures
        final(data)@ == old(data)@ + option_encoding(amount),
{
    match amount {
        None => {
            data.push(0);
            assert(data@ =~= old(data)@ + seq![0u8]);
        },
        Some(n) => {
            data.push(1);
            push_u64(data, n);
            assert(data@ =~= old(data)@ + (seq![1u8] + spec_u64_to_le_bytes(n)));
        },
    }
}

/// Appends the 32 bytes of an identity.
pub fn push_key(data: &mut Vec<u8>, key: &Pubkey)
    ensures
        final(data)@ == old(data)@ + key@,
{
    let mut i: usize = 0;
    while i < 32
        invariant
            0 <= i <= 32,
            data@ == old(data)@ + key@.subrange(0, i as int),
        decreases 32 - i,
    {
        data.push(key[i]);
        assert(data@ =~= old(data)@ + key@.subrange(0, i + 1));
        i = i + 1;
    }
    assert(key@.subrange(0, 32) =~= key@);
}

impl SwapParams {
    /// The parameters in bytes: the side (0 for buy, 1 for sell), the kind
    /// of bound (0 for exact-in, 1 for exact-out), and its two amounts in
    /// little-endian order.
    pub open spec fn encoding(self) -> Seq<u8> {
        let side: u8 = match self.side {
            Side::Buy => 0,
            Side::Sell => 1,
        };
        match self.swap_type {
            SwapType::ExactIn { amount_in, min_amount_out } => seq![side, 0u8]
                + spec_u64_to_le_bytes(amount_in) + spec_u64_to_le_bytes(min_amount_out),
            SwapType::ExactOut { amount_out, max_amount_in } => seq![side, 1u8]
                + spec_u64_to_le_bytes(amount_out) + spec_u64_to_le_bytes(max_amount_in),
        }
    }

    /// Appends the parameters to `data`.
    pub fn write(&self, data: &mut Vec<u8>)
        ensures
            final(data)@ == old(data)@ + self.encoding(),
    {
        let side: u8 = match self.side {
            Side::Buy => 0,
            Side::Sell => 1,
        };
        data.push(side);
        let (kind, first, second): (u8, u64, u64) = match self.swap_type {
            SwapType::ExactIn { amount_in, min_amount_out } => (0, amount_in, min_amount_out),
            SwapType::ExactOut { amount_out, max_amount_in } => (1, amount_out, max_amount_in),
        };
        data.push(kind);
        push_u64(data, first);
        push_u64(data, second);
        assert(data@ =~= old(data)@ + (seq![side, kind] + spec_u64_to_le_bytes(first)
            + spec_u64_to_le_bytes(second)));
    }
}

impl AddLiquidityParams {
    /// The parameters in bytes: the two amounts in little-endian order, and
    /// the optional number of shares.
    pub open spec fn encoding(self) -> Seq<u8> {
        spec_u64_to_le_bytes(self.desired_base_amount_in) + spec_u64_to_le_bytes(
            self.desired_quote_amount_in,
        ) + option_encoding(self.initial_lp_shares)
    }

    /// Appends the parameters to `data`.
    pub fn write(&self, data: &mut Vec<u8>)
        ensures
            final(data)@ == old(data)@ + self.encoding(),
    {
        push_u64(data, self.desired_base_amount_in);
        push_u64(data, self.desired_quote_amount_in);
        push_option(data, self.initial_lp_shares);
        assert(data@ =~= old(data)@ + self.encoding());
    }
}

impl ProtocolFeeRecipientParams {
    /// The parameters in bytes: the identity, and the weight in
    /// little-endian order.
    pub open spec fn encoding(self) -> Seq<u8> {
        self.recipient@ + spec_u64_to_le_bytes(self.shares)
    }

    /// Appends the parameters to `data`.
    pub fn write(&self, data: &mut Vec<u8>)
        ensures
            final(data)@ == old(data)@ + self.encoding(),
    {
        push_key(data, &self.recipient);
        push_u64(data, self.shares);
        assert(data@ =~= old(data)@ + self.encoding());
    }
}

impl InitializePoolParams {
    /// The parameters in bytes: the two fee settings in little-endian order,
    /// the three recipients, and the optional vesting window.
    pub open spec fn encoding(self) -> Seq<u8> {
        spec_u64_to_le_bytes(self.lp_fee_in_bps) + spec_u64_to_le_bytes(
            self.protocol_fee_allocation_in_pct,
        ) + self.fee_recipients_params[0].encoding() + self.fee_recipients_params[1].encoding()
            + self.fee_recipients_params[2].encoding() + option_encoding(
            self.num_slots_to_vest_lp_shares,
        )
    }

    /// Appends the parameters to `data`.
    pub fn write(&self, data: &mut Vec<u8>)
        ensures
            final(data)@ == old(data)@ + self.encoding(),
    {
        push_u64(data, self.lp_fee_in_bps);
        push_u64(data, self.protocol_fee_allocation_in_pct);
        let first = self.fee_recipients_params[0];
        let second = self.fee_recipients_params[1];
        let third = self.fee_recipients_params[2];
        first.write(data);
        second.write(data);
        third.write(data);
        push_option(data, self.num_slots_to_vest_lp_shares);
        assert(data@ =~= old(data)@ + self.encoding());
    }
}

/// The identity of the system program.
pub const SYSTEM_PROGRAM_ID: Pubkey = [
    0, 0, 0, 0, 0, 0, 0, 0, 0, 0, 0, 0, 0, 0, 0, 0,
    0, 0, 0, 0, 0, 0, 0, 0, 0, 0, 0, 0, 0, 0, 0, 0,
];

/// One account of a request, and how the request uses it.
#[derive(Debug, Clone, Copy)]
pub struct AccountMeta {
    pub pubkey: Pubkey,
    pub is_signer: bool,
    pub is_writable: bool,
}

/// An account of a request, with its identity as a sequence of bytes.
pub struct AccountMetaView {
    pub pubkey: Seq<u8>,
    pub is_signer: bool,
    pub is_writable: bool,
}

/// An account that the request may write.
pub open spec fn writable(pubkey: Seq<u8>, is_signer: bool) -> AccountMetaView {
    AccountMetaView { pubkey, is_signer, is_writable: true }
}

/// An account that the request only reads.
pub open spec fn readonly(pubkey: Seq<u8>, is_signer: bool) -> AccountMetaView {
    AccountMetaView { pubkey, is_signer, is_writable: false }
}

impl View for AccountMeta {
    type V = AccountMetaView;

    open spec fn view(&self) -> AccountMetaView {
        AccountMetaView {
            pubkey: self.pubkey@,
            is_signer: self.is_signer,
            is_writable: self.is_writable,
        }
    }
}

impl AccountMeta {
    /// An account that the request may write.
    pub fn new(pubkey: Pubkey, is_signer: bool) -> (r: Self)
        ensures
            r@ == writable(pubkey@, is_signer),
    {
        AccountMeta { pubkey, is_signer, is_writable: true }
    }

    /// An account that the request only reads.
    pub fn new_readonly(pubkey: Pubkey, is_signer: bool) -> (r: Self)
        ensures
            r@ == readonly(pubkey@, is_signer),
    {
        AccountMeta { pubkey, is_signer, is_writable: false }
    }
}

/// A request to a program: the program, the accounts in their order, and
/// the data.
#[derive(Debug, Clone)]
pub struct Instruction {
    pub program_id: Pubkey,
    pub accounts: Vec<AccountMeta>,
    pub data: Vec<u8>,
}

/// A request, with its parts as sequences.
pub struct InstructionView {
    pub program_id: Seq<u8>,
    pub accounts: Seq<AccountMetaView>,
    pub data: Seq<u8>,
}

impl View for Instruction {
    type V = InstructionView;

    open spec fn view(&self) -> InstructionView {
        InstructionView {
            program_id: self.program_id@,
            accounts: self.accounts@.map_values(|account: AccountMeta| account@),
            data: self.data@,
        }
    }
}

/// The accounts that every request starts with: the program itself and its
/// log authority, both read only.
fn leading_accounts(log_authority: &Pubkey) -> (r: Vec<AccountMeta>)
    ensures
        r@.map_values(|account: AccountMeta| account@) == seq![
            readonly(ID@, false),
            readonly(log_authority@, false),
        ],
{
    let mut accounts: Vec<AccountMeta> = Vec::new();
    accounts.push(AccountMeta::new_readonly(ID, false));
    accounts.push(AccountMeta::new_readonly(*log_authority, false));
    assert(accounts@.map_values(|account: AccountMeta| account@) =~= seq![
        readonly(ID@, false),
        readonly(log_authority@, false),
    ]);
    accounts
}

/// Appends one account.
fn push_account(accounts: &mut Vec<AccountMeta>, account: AccountMeta)
    ensures
        final(accounts)@.map_values(|account: AccountMeta| account@) == old(
            accounts,
        )@.map_values(|account: AccountMeta| account@).push(account@),
{
    accounts.push(account);
    assert(accounts@.map_values(|account: AccountMeta| account@) =~= old(accounts)@.map_values(
        |account: AccountMeta| account@,
    ).push(account@));
}

/// The swap request, given the addresses that it names.
pub open spec fn swap_instruction(
    log_authority: Seq<u8>,
    base_vault_key: Seq<u8>,
    quote_vault_key: Seq<u8>,
    pool_key: Seq<u8>,
    trader: Seq<u8>,
    base_account_key: Seq<u8>,
    quote_account_key: Seq<u8>,
    params: SwapParams,
) -> InstructionView {
    InstructionView {
        program_id: ID@,
        accounts: seq![
            readonly(ID@, false),
            readonly(log_authority, false),
            writable(pool_key, false),
            readonly(trader, true),
            writable(base_account_key, false),
            writable(quote_account_key, false),
            writable(base_vault_key, false),
            writable(quote_vault_key, false),
            readonly(crate::spl_token::ID@, false),
        ],
        data: seq![SWAP_DISCRIMINATOR] + params.encoding(),
    }
}

/// Builds the swap request from the addresses that it names.
pub fn swap_with_addresses(
    log_authority: &Pubkey,
    base_vault_key: &Pubkey,
    quote_vault_key: &Pubkey,
    pool_key: &Pubkey,
    trader: &Pubkey,
    base_account_key: &Pubkey,
    quote_account_key: &Pubkey,
    params: SwapParams,
) -> (r: Instruction)
    ensures
        r@ == swap_instruction(
            log_authority@,
            base_vault_key@,
            quote_vault_key@,
            pool_key@,
            trader@,
            base_account_key@,
            quote_account_key@,
            params,
        ),
{
    let mut accounts = leading_accounts(log_authority);
    push_account(&mut accounts, AccountMeta::new(*pool_key, false));
    push_account(&mut accounts, AccountMeta::new_readonly(*trader, true));
    push_account(&mut accounts, AccountMeta::new(*base_account_key, false));
    push_account(&mut accounts, AccountMeta::new(*quote_account_key, false));
    push_account(&mut accounts, AccountMeta::new(*base_vault_key, false));
    push_account(&mut accounts, AccountMeta::new(*quote_vault_key, false));
    push_account(&mut accounts, AccountMeta::new_readonly(crate::spl_token::ID, false));
    let mut data: Vec<u8> = Vec::new();
    data.push(SWAP_DISCRIMINATOR);
    params.write(&mut data);
    let instruction = Instruction { program_id: ID, accounts, data };
    assert(instruction@.accounts =~= swap_instruction(
        log_authority@,
        base_vault_key@,
        quote_vault_key@,
        pool_key@,
        trader@,
        base_account_key@,
        quote_account_key@,
        params,
    ).accounts);
    assert(instruction@.data =~= seq![SWAP_DISCRIMINATOR] + params.encoding());
    instruction
}

/// Builds the swap request of `trader` in the pool `pool_key`; none where
/// an address of the pool cannot be derived.
pub fn swap(
    pool_key: &Pubkey,
    trader: &Pubkey,
    base_mint: &Pubkey,
    quote_mint: &Pubkey,
    base_account_key: &Pubkey,
    quote_account_key: &Pubkey,
    params: SwapParams,
) -> (r: Option<Instruction>)
    ensures
        match (
            program_address(log_seeds(), ID@),
            program_address(vault_seeds(pool_key@, base_mint@), ID@),
            program_address(vault_seeds(pool_key@, quote_mint@), ID@),
        ) {
            (Some(log), Some(base_vault), Some(quote_vault)) => r is Some && r->Some_0@
                == swap_instruction(
                log.0,
                base_vault.0,
                quote_vault.0,
                pool_key@,
                trader@,
                base_account_key@,
                quote_account_key@,
                params,
            ),
            _ => r is None,
        },
{
    let log_authority = match get_log_authority(&ID) {
        Some(key) => key,
        None => {
            return None;
        },
    };
    let base_vault_key = match get_vault_address(&ID, pool_key, base_mint) {
        Some((key, _)) => key,
        None => {
            return None;
        },
    };
    let quote_vault_key = match get_vault_address(&ID, pool_key, quote_mint) {
        Some((key, _)) => key,
        None => {
            return None;
        },
    };
    Some(
        swap_with_addresses(
            &log_authority,
            &base_vault_key,
            &quote_vault_key,
            pool_key,
            trader,
            base_account_key,
            quote_account_key,
            params,
        ),
    )
}

/// The request that creates a pool, given the addresses that it names.
pub open spec fn initialize_pool_instruction(
    log_authority: Seq<u8>,
    base_vault: Seq<u8>,
    quote_vault: Seq<u8>,
    pool_key: Seq<u8>,
    pool_creator: Seq<u8>,
    base_mint: Seq<u8>,
    quote_mint: Seq<u8>,
    params: InitializePoolParams,
) -> InstructionView {
    InstructionView {
        program_id: ID@,
        accounts: seq![
            readonly(ID@, false),
            readonly(log_authority, false),
            writable(pool_key, false),
            writable(pool_creator, true),
            readonly(base_mint, false),
            readonly(quote_mint, false),
            writable(base_vault, false),
            writable(quote_vault, false),
            readonly(SYSTEM_PROGRAM_ID@, false),
            readonly(crate::spl_token::ID@, false),
        ],
        data: seq![INITIALIZE_POOL_DISCRIMINATOR] + params.encoding(),
    }
}

/// Builds the request that creates a pool from the addresses that it names.
pub fn initialize_pool_with_addresses(
    log_authority: &Pubkey,
    base_vault: &Pubkey,
    quote_vault: &Pubkey,
    pool_key: &Pubkey,
    pool_creator: &Pubkey,
    base_mint: &Pubkey,
    quote_mint: &Pubkey,
    params: InitializePoolParams,
) -> (r: Instruction)
    ensures
        r@ == initialize_pool_instruction(
            log_authority@,
            base_vault@,
            quote_vault@,
            pool_key@,
            pool_creator@,
            base_mint@,
            quote_mint@,
            params,
        ),
{
    let mut accounts = leading_accounts(log_authority);
    push_account(&mut accounts, AccountMeta::new(*pool_key, false));
    push_account(&mut accounts, AccountMeta::new(*pool_creator, true));
    push_account(&mut accounts, AccountMeta::new_readonly(*base_mint, false));
    push_account(&mut accounts, AccountMeta::new_readonly(*quote_mint, false));
    push_account(&mut accounts, AccountMeta::new(*base_vault, false));
    push_account(&mut accounts, AccountMeta::new(*quote_vault, false));
    push_account(&mut accounts, AccountMeta::new_readonly(SYSTEM_PROGRAM_ID, false));
    push_account(&mut accounts, AccountMeta::new_readonly(crate::spl_token::ID, false));
    let mut data: Vec<u8> = Vec::new();
    data.push(INITIALIZE_POOL_DISCRIMINATOR);
    params.write(&mut data);
    let instruction = Instruction { program_id: ID, accounts, data };
    assert(instruction@.accounts =~= initialize_pool_instruction(
        log_authority@,
        base_vault@,
        quote_vault@,
        pool_key@,
        pool_creator@,
        base_mint@,
        quote_mint@,
        params,
    ).accounts);
    assert(instruction@.data =~= seq![INITIALIZE_POOL_DISCRIMINATOR] + params.encoding());
    instruction
}

/// Builds the request with which `pool_creator` creates the pool `pool_key`;
/// none where an address of the pool cannot be derived.
pub fn initialize_pool(
    pool_key: &Pubkey,
    pool_creator: &Pubkey,
    base_mint: &Pubkey,
    quote_mint: &Pubkey,
    params: InitializePoolParams,
) -> (r: Option<Instruction>)
    ensures
        match (
            program_address(vault_seeds(pool_key@, base_mint@), ID@),
            program_address(vault_seeds(pool_key@, quote_mint@), ID@),
            program_address(log_seeds(), ID@),
        ) {
            (Some(base_vault), Some(quote_vault), Some(log)) => r is Some && r->Some_0@
                == initialize_pool_instruction(
                log.0,
                base_vault.0,
                quote_vault.0,
                pool_key@,
                pool_creator@,
                base_mint@,
                quote_mint@,
                params,
            ),
            _ => r is None,
        },
{
    let base_vault = match get_vault_address(&ID, pool_key, base_mint) {
        Some((key, _)) => key,
        None => {
            return None;
        },
    };
    let quote_vault = match get_vault_address(&ID, pool_key, quote_mint) {
        Some((key, _)) => key,
        None => {
            return None;
        },
    };
    let log_authority = match get_log_authority(&ID) {
        Some(key) => key,
        None => {
            return None;
        },
    };
    Some(
        initialize_pool_with_addresses(
            &log_authority,
            &base_vault,
            &quote_vault,
            pool_key,
            pool_creator,
            base_mint,
            quote_mint,
            params,
        ),
    )
}

/// The request that creates a position, given the addresses that it names.
pub open spec fn initialize_lp_position_instruction(
    log_authority: Seq<u8>,
    lp_position_key: Seq<u8>,
    pool_key: Seq<u8>,
    payer: Seq<u8>,
    lp_position_owner: Seq<u8>,
) -> InstructionView {
    InstructionView {
        program_id: ID@,
        accounts: seq![
            readonly(ID@, false),
            readonly(log_authority, false),
            writable(pool_key, false),
            writable(payer, true),
            readonly(lp_position_owner, false),
            writable(lp_position_key, false),
            readonly(SYSTEM_PROGRAM_ID@, false),
        ],
        data: seq![INITIALIZE_LP_POSITION_DISCRIMINATOR],
    }
}

/// Builds the request that creates a position from the addresses that it
/// names.
pub fn initialize_lp_position_with_addresses(
    log_authority: &Pubkey,
    lp_position_key: &Pubkey,
    pool_key: &Pubkey,
    payer: &Pubkey,
    lp_position_owner: &Pubkey,
) -> (r: Instruction)
    ensures
        r@ == initialize_lp_position_instruction(
            log_authority@,
            lp_position_key@,
            pool_key@,
            payer@,
            lp_position_owner@,
        ),
{
    let mut accounts = leading_accounts(log_authority);
    push_account(&mut accounts, AccountMeta::new(*pool_key, false));
    push_account(&mut accounts, AccountMeta::new(*payer, true));
    push_account(&mut accounts, AccountMeta::new_readonly(*lp_position_owner, false));
    push_account(&mut accounts, AccountMeta::new(*lp_position_key, false));
    push_account(&mut accounts, AccountMeta::new_readonly(SYSTEM_PROGRAM_ID, false));
    let mut data: Vec<u8> = Vec::new();
    data.push(INITIALIZE_LP_POSITION_DISCRIMINATOR);
    let instruction = Instruction { program_id: ID, accounts, data };
    assert(instruction@.accounts =~= initialize_lp_position_instruction(
        log_authority@,
        lp_position_key@,
        pool_key@,
        payer@,
        lp_position_owner@,
    ).accounts);
    assert(instruction@.data =~= seq![INITIALIZE_LP_POSITION_DISCRIMINATOR]);
    instruction
}

/// Builds the request with which `payer` creates the position of
/// `lp_position_owner` in the pool `pool_key`; none where an address cannot
/// be derived.
pub fn initialize_lp_position(pool_key: &Pubkey, payer: &Pubkey, lp_position_owner: &Pubkey) -> (r:
    Option<Instruction>)
    ensures
        match (
            program_address(log_seeds(), ID@),
            program_address(lp_position_seeds(pool_key@, lp_position_owner@), ID@),
        ) {
            (Some(log), Some(position)) => r is Some && r->Some_0@
                == initialize_lp_position_instruction(
                log.0,
                position.0,
                pool_key@,
                payer@,
                lp_position_owner@,
            ),
            _ => r is None,
        },
{
    let log_authority = match get_log_authority(&ID) {
        Some(key) => key,
        None => {
            return None;
        },
    };
    let lp_position_key = match get_lp_position_address(&ID, pool_key, lp_position_owner) {
        Some((key, _)) => key,
        None => {
            return None;
        },
    };
    Some(
        initialize_lp_position_with_addresses(
            &log_authority,
            &lp_position_key,
            pool_key,
            payer,
            lp_position_owner,
        ),
    )
}

/// The accounts of a request that moves tokens between a trader and the
/// vaults of a pool on behalf of the trader's position.
pub open spec fn liquidity_accounts(
    log_authority: Seq<u8>,
    lp_position_key: Seq<u8>,
    base_vault_key: Seq<u8>,
    quote_vault_key: Seq<u8>,
    pool_key: Seq<u8>,
    trader: Seq<u8>,
    base_account_key: Seq<u8>,
    quote_account_key: Seq<u8>,
) -> Seq<AccountMetaView> {
    seq![
        readonly(ID@, false),
        readonly(log_authority, false),
        writable(pool_key, false),
        readonly(trader, true),
        writable(lp_position_key, false),
        writable(base_account_key, false),
        writable(quote_account_key, false),
        writable(base_vault_key, false),
        writable(quote_vault_key, false),
        readonly(crate::spl_token::ID@, false),
    ]
}

/// Builds the accounts of a request that adds or removes liquidity.
fn liquidity_account_list(
    log_authority: &Pubkey,
    lp_position_key: &Pubkey,
    base_vault_key: &Pubkey,
    quote_vault_key: &Pubkey,
    pool_key: &Pubkey,
    trader: &Pubkey,
    base_account_key: &Pubkey,
    quote_account_key: &Pubkey,
) -> (r: Vec<AccountMeta>)
    ensures
        r@.map_values(|account: AccountMeta| account@) == liquidity_accounts(
            log_authority@,
            lp_position_key@,
            base_vault_key@,
            quote_vault_key@,
            pool_key@,
            trader@,
            base_account_key@,
            quote_account_key@,
        ),
{
    let mut accounts = leading_accounts(log_authority);
    push_account(&mut accounts, AccountMeta::new(*pool_key, false));
    push_account(&mut accounts, AccountMeta::new_readonly(*trader, true));
    push_account(&mut accounts, AccountMeta::new(*lp_position_key, false));
    push_account(&mut accounts, AccountMeta::new(*base_account_key, false));
    push_account(&mut accounts, AccountMeta::new(*quote_account_key, false));
    push_account(&mut accounts, AccountMeta::new(*base_vault_key, false));
    push_account(&mut accounts, AccountMeta::new(*quote_vault_key, false));
    push_account(&mut accounts, AccountMeta::new_readonly(crate::spl_token::ID, false));
    assert(accounts@.map_values(|account: AccountMeta| account@) =~= liquidity_accounts(
        log_authority@,
        lp_position_key@,
        base_vault_key@,
        quote_vault_key@,
        pool_key@,
        trader@,
        base_account_key@,
        quote_account_key@,
    ));
    accounts
}

/// The four addresses that a request to add or remove liquidity names, in
/// the order log authority, position, base vault, quote vault; none where
/// one of them cannot be derived.
pub open spec fn liquidity_addresses(
    pool_key: Seq<u8>,
    trader: Seq<u8>,
    base_mint: Seq<u8>,
    quote_mint: Seq<u8>,
) -> Option<(Seq<u8>, Seq<u8>, Seq<u8>, Seq<u8>)> {
    match (
        program_address(log_seeds(), ID@),
        program_address(lp_position_seeds(pool_key, trader), ID@),
        program_address(vault_seeds(pool_key, base_mint), ID@),
        program_address(vault_seeds(pool_key, quote_mint), ID@),
    ) {
        (Some(log), Some(position), Some(base_vault), Some(quote_vault)) => Some(
            (log.0, position.0, base_vault.0, quote_vault.0),
        ),
        _ => None,
    }
}

/// Derives the four addresses that a request to add or remove liquidity
/// names.
fn derive_liquidity_addresses(
    pool_key: &Pubkey,
    trader: &Pubkey,
    base_mint: &Pubkey,
    quote_mint: &Pubkey,
) -> (r: Option<(Pubkey, Pubkey, Pubkey, Pubkey)>)
    ensures
        match liquidity_addresses(pool_key@, trader@, base_mint@, quote_mint@) {
            Some(found) => r is Some && r->Some_0.0@ == found.0 && r->Some_0.1@ == found.1
                && r->Some_0.2@ == found.2 && r->Some_0.3@ == found.3,
            None => r is None,
        },
{
    let log_authority = match get_log_authority(&ID) {
        Some(key) => key,
        None => {
            return None;
        },
    };
    let lp_position_key = match get_lp_position_address(&ID, pool_key, trader) {
        Some((key, _)) => key,
        None => {
            return None;
        },
    };
    let base_vault_key = match get_vault_address(&ID, pool_key, base_mint) {
        Some((key, _)) => key,
        None => {
            return None;
        },
    };
    let quote_vault_key = match get_vault_address(&ID, pool_key, quote_mint) {
        Some((key, _)) => key,
        None => {
            return None;
        },
    };
    Some((log_authority, lp_position_key, base_vault_key, quote_vault_key))
}

/// The request that adds liquidity, given the addresses that it names.
pub open spec fn add_liquidity_instruction(
    log_authority: Seq<u8>,
    lp_position_key: Seq<u8>,
    base_vault_key: Seq<u8>,
    quote_vault_key: Seq<u8>,
    pool_key: Seq<u8>,
    trader: Seq<u8>,
    base_mint_account_key: Seq<u8>,
    quote_mint_account_key: Seq<u8>,
    params: AddLiquidityParams,
) -> InstructionView {
    InstructionView {
        program_id: ID@,
        accounts: liquidity_accounts(
            log_authority,
            lp_position_key,
            base_vault_key,
            quote_vault_key,
            pool_key,
            trader,
            base_mint_account_key,
            quote_mint_account_key,
        ),
        data: seq![ADD_LIQUIDITY_DISCRIMINATOR] + params.encoding(),
    }
}

/// Builds the request that adds liquidity from the addresses that it names.
pub fn add_liquidity_with_addresses(
    log_authority: &Pubkey,
    lp_position_key: &Pubkey,
    base_vault_key: &Pubkey,
    quote_vault_key: &Pubkey,
    pool_key: &Pubkey,
    trader: &Pubkey,
    base_mint_account_key: &Pubkey,
    quote_mint_account_key: &Pubkey,
    params: AddLiquidityParams,
) -> (r: Instruction)
    ensures
        r@ == add_liquidity_instruction(
            log_authority@,
            lp_position_key@,
            base_vault_key@,
            quote_vault_key@,
            pool_key@,
            trader@,
            base_mint_account_key@,
            quote_mint_account_key@,
            params,
        ),
{
    let accounts = liquidity_account_list(
        log_authority,
        lp_position_key,
        base_vault_key,
        quote_vault_key,
        pool_key,
        trader,
        base_mint_account_key,
        quote_mint_account_key,
    );
    let mut data: Vec<u8> = Vec::new();
    data.push(ADD_LIQUIDITY_DISCRIMINATOR);
    params.write(&mut data);
    assert(data@ =~= seq![ADD_LIQUIDITY_DISCRIMINATOR] + params.encoding());
    Instruction { program_id: ID, accounts, data }
}

/// Builds the request with which `trader` adds liquidity to the pool
/// `pool_key`; none where an address cannot be derived.
pub fn add_liquidity(
    pool_key: &Pubkey,
    trader: &Pubkey,
    base_mint: &Pubkey,
    base_mint_account_key: &Pubkey,
    quote_mint: &Pubkey,
    quote_mint_account_key: &Pubkey,
    params: AddLiquidityParams,
) -> (r: Option<Instruction>)
    ensures
        match liquidity_addresses(pool_key@, trader@, base_mint@, quote_mint@) {
            Some(found) => r is Some && r->Some_0@ == add_liquidity_instruction(
                found.0,
                found.1,
                found.2,
                found.3,
                pool_key@,
                trader@,
                base_mint_account_key@,
                quote_mint_account_key@,
                params,
            ),
            None => r is None,
        },
{
    match derive_liquidity_addresses(pool_key, trader, base_mint, quote_mint) {
        Some((log_authority, lp_position_key, base_vault_key, quote_vault_key)) => Some(
            add_liquidity_with_addresses(
                &log_authority,
                &lp_position_key,
                &base_vault_key,
                &quote_vault_key,
                pool_key,
                trader,
                base_mint_account_key,
                quote_mint_account_key,
                params,
            ),
        ),
        None => None,
    }
}

/// The request that removes liquidity, given the addresses that it names.
pub open spec fn remove_liquidity_instruction(
    log_authority: Seq<u8>,
    lp_position_key: Seq<u8>,
    base_vault_key: Seq<u8>,
    quote_vault_key: Seq<u8>,
    pool_key: Seq<u8>,
    trader: Seq<u8>,
    base_account_key: Seq<u8>,
    quote_account_key: Seq<u8>,
    shares: u64,
) -> InstructionView {
    InstructionView {
        program_id: ID@,
        accounts: liquidity_accounts(
            log_authority,
            lp_position_key,
            base_vault_key,
            quote_vault_key,
            pool_key,
            trader,
            base_account_key,
            quote_account_key,
        ),
        data: seq![REMOVE_LIQUIDITY_DISCRIMINATOR] + spec_u64_to_le_bytes(shares),
    }
}

/// Builds the request that removes liquidity from the addresses that it
/// names.
pub fn remove_liquidity_with_addresses(
    log_authority: &Pubkey,
    lp_position_key: &Pubkey,
    base_vault_key: &Pubkey,
    quote_vault_key: &Pubkey,
    pool_key: &Pubkey,
    trader: &Pubkey,
    base_account_key: &Pubkey,
    quote_account_key: &Pubkey,
    shares: u64,
) -> (r: Instruction)
    ensures
        r@ == remove_liquidity_instruction(
            log_authority@,
            lp_position_key@,
            base_vault_key@,
            quote_vault_key@,
            pool_key@,
            trader@,
            base_account_key@,
            quote_account_key@,
            shares,
        ),
{
    let accounts = liquidity_account_list(
        log_authority,
        lp_position_key,
        base_vault_key,
        quote_vault_key,
        pool_key,
        trader,
        base_account_key,
        quote_account_key,
    );
    let mut data: Vec<u8> = Vec::new();
    data.push(REMOVE_LIQUIDITY_DISCRIMINATOR);
    push_u64(&mut data, shares);
    assert(data@ =~= seq![REMOVE_LIQUIDITY_DISCRIMINATOR] + spec_u64_to_le_bytes(shares));
    Instruction { program_id: ID, accounts, data }
}

/// Builds the request with which `trader` removes `shares` from the pool
/// `pool_key`; none where an address cannot be derived.
pub fn remove_liquidity(
    pool_key: &Pubkey,
    trader: &Pubkey,
    base_mint: &Pubkey,
    quote_mint: &Pubkey,
    base_account_key: &Pubkey,
    quote_account_key: &Pubkey,
    shares: u64,
) -> (r: Option<Instruction>)
    ensures
        match liquidity_addresses(pool_key@, trader@, base_mint@, quote_mint@) {
            Some(found) => r is Some && r->Some_0@ == remove_liquidity_instruction(
                found.0,
                found.1,
                found.2,
                found.3,
                pool_key@,
                trader@,
                base_account_key@,
                quote_account_key@,
                shares,
            ),
            None => r is None,
        },
{
    match derive_liquidity_addresses(pool_key, trader, base_mint, quote_mint) {
        Some((log_authority, lp_position_key, base_vault_key, quote_vault_key)) => Some(
            remove_liquidity_with_addresses(
                &log_authority,
                &lp_position_key,
                &base_vault_key,
                &quote_vault_key,
                pool_key,
                trader,
                base_account_key,
                quote_account_key,
                shares,
            ),
        ),
        None => None,
    }
}

/// The request that transfers liquidity, given the addresses that it names.
pub open spec fn transfer_liquidity_instruction(
    log_authority: Seq<u8>,
    src_lp_position_key: Seq<u8>,
    dst_lp_position_key: Seq<u8>,
    pool_key: Seq<u8>,
    src: Seq<u8>,
) -> InstructionView {
    InstructionView {
        program_id: ID@,
        accounts: seq![
            readonly(ID@, false),
            readonly(log_authority, false),
            writable(pool_key, false),
            writable(src, true),
            writable(src_lp_position_key, false),
            writable(dst_lp_position_key, false),
        ],
        data: seq![TRANSFER_LIQUIDITY_DISCRIMINATOR],
    }
}

/// Builds the request that transfers liquidity from the addresses that it
/// names.
pub fn transfer_liquidity_with_addresses(
    log_authority: &Pubkey,
    src_lp_position_key: &Pubkey,
    dst_lp_position_key: &Pubkey,
    pool_key: &Pubkey,
    src: &Pubkey,
) -> (r: Instruction)
    ensures
        r@ == transfer_liquidity_instruction(
            log_authority@,
            src_lp_position_key@,
            dst_lp_position_key@,
            pool_key@,
            src@,
        ),
{
    let mut accounts = leading_accounts(log_authority);
    push_account(&mut accounts, AccountMeta::new(*pool_key, false));
    push_account(&mut accounts, AccountMeta::new(*src, true));
    push_account(&mut accounts, AccountMeta::new(*src_lp_position_key, false));
    push_account(&mut accounts, AccountMeta::new(*dst_lp_position_key, false));
    let mut data: Vec<u8> = Vec::new();
    data.push(TRANSFER_LIQUIDITY_DISCRIMINATOR);
    let instruction = Instruction { program_id: ID, accounts, data };
    assert(instruction@.accounts =~= transfer_liquidity_instruction(
        log_authority@,
        src_lp_position_key@,
        dst_lp_position_key@,
        pool_key@,
        src@,
    ).accounts);
    assert(instruction@.data =~= seq![TRANSFER_LIQUIDITY_DISCRIMINATOR]);
    instruction
}

/// Builds the request with which `src` transfers its liquidity in the pool
/// `pool_key` to `dst`; none where an address cannot be derived.
pub fn transfer_liquidity(pool_key: &Pubkey, src: &Pubkey, dst: &Pubkey) -> (r: Option<
    Instruction,
>)
    ensures
        match (
            program_address(log_seeds(), ID@),
            program_address(lp_position_seeds(pool_key@, src@), ID@),
            program_address(lp_position_seeds(pool_key@, dst@), ID@),
        ) {
            (Some(log), Some(from), Some(to)) => r is Some && r->Some_0@
                == transfer_liquidity_instruction(log.0, from.0, to.0, pool_key@, src@),
            _ => r is None,
        },
{
    let log_authority = match get_log_authority(&ID) {
        Some(key) => key,
        None => {
            return None;
        },
    };
    let src_lp_position_key = match get_lp_position_address(&ID, pool_key, src) {
        Some((key, _)) => key,
        None => {
            return None;
        },
    };
    let dst_lp_position_key = match get_lp_position_address(&ID, pool_key, dst) {
        Some((key, _)) => key,
        None => {
            return None;
        },
    };
    Some(
        transfer_liquidity_with_addresses(
            &log_authority,
            &src_lp_position_key,
            &dst_lp_position_key,
            pool_key,
            src,
        ),
    )
}

} // verus!
