use plasma_amm_sdk::amm::Side;
use plasma_amm_sdk::instructions::{
    add_liquidity, initialize_lp_position, initialize_pool, remove_liquidity, swap,
    swap_with_addresses, transfer_liquidity, AddLiquidityParams, InitializePoolParams,
    PlasmaInstruction, ProtocolFeeRecipientParams, SwapParams, SwapType, UnknownInstruction,
    SYSTEM_PROGRAM_ID,
};
use plasma_amm_sdk::{
    get_log_authority, get_lp_position_address, get_vault_address, spl_token, ID,
};
use solana_program::pubkey::Pubkey;
use std::str::FromStr;

#[test]
fn test_instruction_serialization() {
    for i in 0..=255 {
        let instruction = match PlasmaInstruction::try_from(i) {
            Ok(j) => j,
            Err(_) => {
                // This needs to be changed if new instructions are added
                assert!(i > 7);
                continue;
            }
        };
        assert_eq!(instruction as u8, i);
    }
}

#[test]
fn numbers_above_nine_are_no_instruction() {
    assert_eq!(PlasmaInstruction::try_from(9u8), Ok(PlasmaInstruction::TransferLiquidity));
    assert_eq!(PlasmaInstruction::try_from(10u8), Err(UnknownInstruction { number: 10 }));
    assert_eq!(PlasmaInstruction::from_number(255), Err(UnknownInstruction { number: 255 }));
}

#[test]
fn to_vec_is_the_number_of_the_instruction() {
    assert_eq!(PlasmaInstruction::Swap.to_vec(), vec![0u8]);
    assert_eq!(PlasmaInstruction::InitializePool.to_vec(), vec![6u8]);
    assert_eq!(PlasmaInstruction::TransferLiquidity.to_vec(), vec![9u8]);
    assert_eq!(PlasmaInstruction::Log.discriminant(), 8);
}

#[test]
fn program_ids_are_the_published_ones() {
    assert_eq!(
        Pubkey::from_str("srAMMzfVHVAtgSJc8iH6CfKzuWuUTzLHVCE81QU1rgi").unwrap().to_bytes(),
        ID
    );
    assert_eq!(
        Pubkey::from_str("TokenkegQfeZyiNwAJbNbGKPFXCWuBvf9Ss623VQ5DA").unwrap().to_bytes(),
        spl_token::ID
    );
    assert_eq!(solana_program::system_program::ID.to_bytes(), SYSTEM_PROGRAM_ID);
}

#[test]
fn swap_params_are_written_field_by_field() {
    let params = SwapParams {
        side: Side::Sell,
        swap_type: SwapType::ExactOut { amount_out: 0x0102, max_amount_in: u64::MAX },
    };
    let mut data = vec![9u8];
    params.write(&mut data);
    assert_eq!(
        data,
        vec![9, 1, 1, 2, 1, 0, 0, 0, 0, 0, 0, 255, 255, 255, 255, 255, 255, 255, 255]
    );
    let params = SwapParams {
        side: Side::Buy,
        swap_type: SwapType::ExactIn { amount_in: 7, min_amount_out: 3 },
    };
    let mut data = Vec::new();
    params.write(&mut data);
    assert_eq!(data, vec![0, 0, 7, 0, 0, 0, 0, 0, 0, 0, 3, 0, 0, 0, 0, 0, 0, 0]);
}

#[test]
fn add_liquidity_params_end_with_the_optional_shares() {
    let mut data = Vec::new();
    AddLiquidityParams {
        desired_base_amount_in: 1,
        desired_quote_amount_in: 256,
        initial_lp_shares: None,
    }
    .write(&mut data);
    assert_eq!(data, vec![1, 0, 0, 0, 0, 0, 0, 0, 0, 1, 0, 0, 0, 0, 0, 0, 0]);
    let mut data = Vec::new();
    AddLiquidityParams {
        desired_base_amount_in: 1,
        desired_quote_amount_in: 256,
        initial_lp_shares: Some(5),
    }
    .write(&mut data);
    assert_eq!(
        data,
        vec![1, 0, 0, 0, 0, 0, 0, 0, 0, 1, 0, 0, 0, 0, 0, 0, 1, 5, 0, 0, 0, 0, 0, 0, 0]
    );
}

fn key(n: u8) -> [u8; 32] {
    let mut bytes = [0u8; 32];
    bytes[0] = n;
    bytes[31] = n;
    bytes
}

fn derive(seeds: &[&[u8]]) -> ([u8; 32], u8) {
    let (address, bump) = Pubkey::find_program_address(seeds, &Pubkey::new_from_array(ID));
    (address.to_bytes(), bump)
}

#[test]
fn addresses_are_derived_from_their_seeds() {
    let pool = key(1);
    let mint = key(2);
    let trader = key(3);
    assert_eq!(get_vault_address(&ID, &pool, &mint), Some(derive(&[b"vault", &pool, &mint])));
    assert_eq!(
        get_lp_position_address(&ID, &pool, &trader),
        Some(derive(&[b"lp_position", &pool, &trader]))
    );
    assert_eq!(get_log_authority(&ID), Some(derive(&[b"log"]).0));
    assert_ne!(get_vault_address(&ID, &pool, &mint).unwrap().0, pool);
    assert_ne!(get_vault_address(&ID, &pool, &mint), get_vault_address(&ID, &mint, &pool));
}

#[test]
fn swap_instruction_names_its_accounts_in_order() {
    let (pool, trader, base_mint, quote_mint, base_account, quote_account) =
        (key(1), key(2), key(3), key(4), key(5), key(6));
    let params = SwapParams {
        side: Side::Buy,
        swap_type: SwapType::ExactIn { amount_in: 10, min_amount_out: 1 },
    };
    let instruction =
        swap(&pool, &trader, &base_mint, &quote_mint, &base_account, &quote_account, params)
            .unwrap();
    let log = derive(&[b"log"]).0;
    let base_vault = derive(&[b"vault", &pool, &base_mint]).0;
    let quote_vault = derive(&[b"vault", &pool, &quote_mint]).0;
    assert_eq!(instruction.program_id, ID);
    let keys: Vec<[u8; 32]> = instruction.accounts.iter().map(|a| a.pubkey).collect();
    assert_eq!(
        keys,
        vec![ID, log, pool, trader, base_account, quote_account, base_vault, quote_vault, spl_token::ID]
    );
    let signers: Vec<bool> = instruction.accounts.iter().map(|a| a.is_signer).collect();
    assert_eq!(signers, vec![false, false, false, true, false, false, false, false, false]);
    let writable: Vec<bool> = instruction.accounts.iter().map(|a| a.is_writable).collect();
    assert_eq!(writable, vec![false, false, true, false, true, true, true, true, false]);
    assert_eq!(
        instruction.data,
        vec![0, 0, 0, 10, 0, 0, 0, 0, 0, 0, 0, 1, 0, 0, 0, 0, 0, 0, 0]
    );
    let same = swap_with_addresses(
        &log,
        &base_vault,
        &quote_vault,
        &pool,
        &trader,
        &base_account,
        &quote_account,
        params,
    );
    assert_eq!(same.data, instruction.data);
    let same_keys: Vec<[u8; 32]> = same.accounts.iter().map(|a| a.pubkey).collect();
    assert_eq!(same_keys, keys);
}

#[test]
fn initialize_pool_instruction_carries_the_settings() {
    let (pool, creator, base_mint, quote_mint) = (key(1), key(2), key(3), key(4));
    let recipient = ProtocolFeeRecipientParams { recipient: key(9), shares: 2 };
    let params = InitializePoolParams {
        lp_fee_in_bps: 25,
        protocol_fee_allocation_in_pct: 10,
        fee_recipients_params: [recipient, recipient, recipient],
        num_slots_to_vest_lp_shares: Some(4),
    };
    let instruction = initialize_pool(&pool, &creator, &base_mint, &quote_mint, params).unwrap();
    let keys: Vec<[u8; 32]> = instruction.accounts.iter().map(|a| a.pubkey).collect();
    assert_eq!(
        keys,
        vec![
            ID,
            derive(&[b"log"]).0,
            pool,
            creator,
            base_mint,
            quote_mint,
            derive(&[b"vault", &pool, &base_mint]).0,
            derive(&[b"vault", &pool, &quote_mint]).0,
            SYSTEM_PROGRAM_ID,
            spl_token::ID,
        ]
    );
    assert!(instruction.accounts[3].is_signer && instruction.accounts[3].is_writable);
    assert!(!instruction.accounts[4].is_writable);
    assert_eq!(instruction.data.len(), 1 + 8 + 8 + 3 * 40 + 9);
    assert_eq!(instruction.data[0], 6);
    assert_eq!(instruction.data[1], 25);
    assert_eq!(instruction.data[9], 10);
    assert_eq!(&instruction.data[17..49], &key(9)[..]);
    assert_eq!(instruction.data[49], 2);
    assert_eq!(&instruction.data[137..], &[1, 4, 0, 0, 0, 0, 0, 0, 0][..]);
}

#[test]
fn position_instructions_name_the_derived_position() {
    let (pool, payer, owner, other) = (key(1), key(2), key(3), key(4));
    let log = derive(&[b"log"]).0;
    let position = derive(&[b"lp_position", &pool, &owner]).0;
    let instruction = initialize_lp_position(&pool, &payer, &owner).unwrap();
    let keys: Vec<[u8; 32]> = instruction.accounts.iter().map(|a| a.pubkey).collect();
    assert_eq!(keys, vec![ID, log, pool, payer, owner, position, SYSTEM_PROGRAM_ID]);
    assert_eq!(instruction.data, vec![5]);
    assert!(instruction.accounts[3].is_signer && instruction.accounts[3].is_writable);

    let instruction = transfer_liquidity(&pool, &owner, &other).unwrap();
    let keys: Vec<[u8; 32]> = instruction.accounts.iter().map(|a| a.pubkey).collect();
    let target = derive(&[b"lp_position", &pool, &other]).0;
    assert_eq!(keys, vec![ID, log, pool, owner, position, target]);
    assert_eq!(instruction.data, vec![9]);
    assert!(instruction.accounts[3].is_signer && instruction.accounts[3].is_writable);
}

#[test]
fn liquidity_instructions_share_their_accounts() {
    let (pool, trader, base_mint, quote_mint, base_account, quote_account) =
        (key(1), key(2), key(3), key(4), key(5), key(6));
    let params = AddLiquidityParams {
        desired_base_amount_in: 3,
        desired_quote_amount_in: 4,
        initial_lp_shares: None,
    };
    let add =
        add_liquidity(&pool, &trader, &base_mint, &base_account, &quote_mint, &quote_account, params)
            .unwrap();
    let remove =
        remove_liquidity(&pool, &trader, &base_mint, &quote_mint, &base_account, &quote_account, 77)
            .unwrap();
    let keys: Vec<[u8; 32]> = add.accounts.iter().map(|a| a.pubkey).collect();
    assert_eq!(
        keys,
        vec![
            ID,
            derive(&[b"log"]).0,
            pool,
            trader,
            derive(&[b"lp_position", &pool, &trader]).0,
            base_account,
            quote_account,
            derive(&[b"vault", &pool, &base_mint]).0,
            derive(&[b"vault", &pool, &quote_mint]).0,
            spl_token::ID,
        ]
    );
    let remove_keys: Vec<[u8; 32]> = remove.accounts.iter().map(|a| a.pubkey).collect();
    assert_eq!(remove_keys, keys);
    assert_eq!(add.data, vec![1, 3, 0, 0, 0, 0, 0, 0, 0, 4, 0, 0, 0, 0, 0, 0, 0, 0]);
    assert_eq!(remove.data, vec![2, 77, 0, 0, 0, 0, 0, 0, 0]);
    assert!(add.accounts[3].is_signer && !add.accounts[3].is_writable);
}
