use pool_fetch::address::Address;
use pool_fetch::address::derive_associated_token_address;
use pool_fetch::address::pump_fee_wallet;
use pool_fetch::address::pump_program_id;
use pool_fetch::address::raydium_program_id;
use pool_fetch::address::sol_mint;
use pool_fetch::dex::Dex;
use pool_fetch::dex::DexAdapter;
use pool_fetch::dex::DexRegistry;
use pool_fetch::dex::PoolAccountResult;
use pool_fetch::error::BotError;
use pool_fetch::pools::AccountData;
use pool_fetch::pump::PumpDex;
use pool_fetch::raydium::RaydiumDex;

fn addr(n: u8) -> Address {
    Address::new([n; 32])
}

const PUMP_TAG: [u8; 8] = [241, 154, 109, 4, 17, 177, 109, 188];

fn pump_account_data(
    base_mint: &Address,
    quote_mint: &Address,
    base_account: &Address,
    quote_account: &Address,
    coin_creator: &Address,
) -> Vec<u8> {
    let mut d = vec![0u8; 243];
    d[0..8].copy_from_slice(&PUMP_TAG);
    d[43..75].copy_from_slice(&base_mint.to_array());
    d[75..107].copy_from_slice(&quote_mint.to_array());
    d[139..171].copy_from_slice(&base_account.to_array());
    d[171..203].copy_from_slice(&quote_account.to_array());
    d[211..243].copy_from_slice(&coin_creator.to_array());
    d
}

fn raydium_account_data(
    coin_vault: &Address,
    pc_vault: &Address,
    coin_mint: &Address,
    pc_mint: &Address,
) -> Vec<u8> {
    let mut d = vec![0u8; 464];
    d[336..368].copy_from_slice(&coin_vault.to_array());
    d[368..400].copy_from_slice(&pc_vault.to_array());
    d[400..432].copy_from_slice(&coin_mint.to_array());
    d[432..464].copy_from_slice(&pc_mint.to_array());
    d
}

#[test]
fn pump_orientation_holds_for_both_orderings() {
    let dex = PumpDex::new();
    let mint = addr(5);
    let pool = addr(6);
    let vault_a = addr(7);
    let vault_b = addr(8);
    let creator = addr(9);

    // queried mint on the base side, native asset on the quote side: the
    // base account holds the queried asset, the quote account the native
    let data = pump_account_data(&mint, &sol_mint(), &vault_a, &vault_b, &creator);
    let info = dex.decode_pool(&pool, &pump_program_id(), &data, &mint).unwrap();
    assert_eq!(info.token_mint, mint);
    assert_eq!(info.base_mint, sol_mint());
    assert_eq!(info.token_vault, vault_a);
    assert_eq!(info.base_vault, vault_b);

    // sides swapped: queried mint on the quote side
    let data = pump_account_data(&sol_mint(), &mint, &vault_a, &vault_b, &creator);
    let info = dex.decode_pool(&pool, &pump_program_id(), &data, &mint).unwrap();
    assert_eq!(info.token_mint, mint);
    assert_eq!(info.base_mint, sol_mint());
    assert_eq!(info.token_vault, vault_b);
    assert_eq!(info.base_vault, vault_a);
}

#[test]
fn raydium_orientation_holds_for_both_orderings() {
    let dex = RaydiumDex::new();
    let mint = addr(5);
    let pool = addr(6);
    let vault_a = addr(7);
    let vault_b = addr(8);

    // queried mint on the coin side: the coin vault holds the queried
    // asset, the pc vault the native one
    let data = raydium_account_data(&vault_a, &vault_b, &mint, &sol_mint());
    let info = dex.decode_pool(&pool, &raydium_program_id(), &data, &mint).unwrap();
    assert_eq!(info.token_mint, mint);
    assert_eq!(info.base_mint, sol_mint());
    assert_eq!(info.token_vault, vault_a);
    assert_eq!(info.base_vault, vault_b);
    assert!(info.fee_wallet.is_none());

    let data = raydium_account_data(&vault_a, &vault_b, &sol_mint(), &mint);
    let info = dex.decode_pool(&pool, &raydium_program_id(), &data, &mint).unwrap();
    assert_eq!(info.token_mint, mint);
    assert_eq!(info.base_mint, sol_mint());
    assert_eq!(info.token_vault, vault_b);
    assert_eq!(info.base_vault, vault_a);
}

#[test]
fn pump_rejects_foreign_owner() {
    let dex = PumpDex::new();
    let mint = addr(5);
    let pool = addr(6);
    let data = pump_account_data(&mint, &sol_mint(), &addr(7), &addr(8), &addr(9));
    let r = dex.decode_pool(&pool, &raydium_program_id(), &data, &mint);
    assert_eq!(r.unwrap_err(), BotError::PoolOwnershipMismatch { address: pool });
}

#[test]
fn pump_rejects_short_or_untagged_data() {
    let dex = PumpDex::new();
    let mint = addr(5);
    let pool = addr(6);
    let r = dex.decode_pool(&pool, &pump_program_id(), &vec![0u8; 100], &mint);
    assert_eq!(r.unwrap_err(), BotError::PoolParse { address: pool });

    let mut untagged = pump_account_data(&mint, &sol_mint(), &addr(7), &addr(8), &addr(9));
    untagged[0] = 0;
    let r = dex.decode_pool(&pool, &pump_program_id(), &untagged, &mint);
    assert_eq!(r.unwrap_err(), BotError::PoolParse { address: pool });
}

#[test]
fn raydium_rejects_short_data() {
    let dex = RaydiumDex::new();
    let pool = addr(6);
    let r = dex.decode_pool(&pool, &raydium_program_id(), &vec![0u8; 463], &addr(5));
    assert_eq!(r.unwrap_err(), BotError::PoolParse { address: pool });
}

#[test]
fn pump_fee_wallet_is_the_derived_associated_account() {
    let dex = PumpDex::new();
    let mint = addr(5);
    let quote = sol_mint();
    let data = pump_account_data(&mint, &quote, &addr(7), &addr(8), &addr(9));
    let info = dex.decode_pool(&addr(6), &pump_program_id(), &data, &mint).unwrap();
    // the decoded fee wallet must equal the real derivation for the fee
    // wallet and the quote mint, not any input handed back unchanged
    let expected = spl_associated_token_account::get_associated_token_address(
        &pump_fee_wallet().to_array().into(),
        &quote.to_array().into(),
    );
    assert_eq!(info.fee_wallet.unwrap().to_array(), expected.to_bytes());
    // and the creator vault is derived from the decoded authority
    let creator_expected = spl_associated_token_account::get_associated_token_address(
        &addr(9).to_array().into(),
        &quote.to_array().into(),
    );
    let ata = info
        .additional_accounts
        .iter()
        .find(|p| p.0 == "coin_creator_vault_ata")
        .unwrap()
        .1;
    assert_eq!(ata.to_array(), creator_expected.to_bytes());
    let authority = info
        .additional_accounts
        .iter()
        .find(|p| p.0 == "coin_creator_vault_authority")
        .unwrap()
        .1;
    assert_eq!(authority, addr(9));
}

#[test]
fn ata_wrapper_matches_the_crate() {
    let wallet = addr(21);
    let mint = addr(22);
    let ours = derive_associated_token_address(&wallet, &mint);
    let theirs = spl_associated_token_account::get_associated_token_address(
        &wallet.to_array().into(),
        &mint.to_array().into(),
    );
    assert_eq!(ours.to_array(), theirs.to_bytes());
    // the derivation is not the identity on its inputs
    assert_ne!(ours, wallet);
    assert_ne!(ours, mint);
}

#[test]
fn fetch_pools_skips_failures_and_keeps_order() {
    let dex = PumpDex::new();
    let mint = addr(5);
    let good1 = pump_account_data(&mint, &sol_mint(), &addr(7), &addr(8), &addr(9));
    let good2 = pump_account_data(&sol_mint(), &mint, &addr(17), &addr(18), &addr(19));
    let addresses = vec![addr(1), addr(2), addr(3), addr(4)];
    let results = vec![
        PoolAccountResult::Read(AccountData { owner: pump_program_id(), data: good1 }),
        PoolAccountResult::Failed("connection reset".to_owned()),
        PoolAccountResult::Read(AccountData { owner: raydium_program_id(), data: vec![0u8; 300] }),
        PoolAccountResult::Read(AccountData { owner: pump_program_id(), data: good2 }),
    ];
    let pools = dex.fetch_pools(&addresses, &results, &mint);
    assert_eq!(pools.len(), 2);
    assert_eq!(pools[0].pool_address, addr(1));
    assert_eq!(pools[1].pool_address, addr(4));
}

#[test]
fn registry_lookup_and_overwrite() {
    let mut registry = DexRegistry::new();
    assert!(registry.get("pump").is_none());
    registry.register(DexAdapter::Pump(PumpDex::new()));
    registry.register(DexAdapter::Raydium(RaydiumDex::new()));
    assert_eq!(registry.all_dexes().len(), 2);
    assert!(registry.get("pump").is_some());
    assert!(registry.get("raydium").is_some());
    assert!(registry.get("unheard-of").is_none());
    // re-registering the same name replaces, never duplicates
    registry.register(DexAdapter::Pump(PumpDex::new()));
    assert_eq!(registry.all_dexes().len(), 2);
}

#[test]
fn swap_instruction_data_is_a_placeholder() {
    let dex = PumpDex::new();
    let mint = addr(5);
    let data = pump_account_data(&mint, &sol_mint(), &addr(7), &addr(8), &addr(9));
    let info = dex.decode_pool(&addr(6), &pump_program_id(), &data, &mint).unwrap();
    assert_eq!(dex.get_swap_instruction_data(&info, 10, 5).unwrap().len(), 0);
    let rdex = RaydiumDex::new();
    assert_eq!(rdex.get_swap_instruction_data(&info, 10, 5).unwrap().len(), 0);
}
