use pool_fetch::config::Config;
use pool_fetch::config::MintConfig;
use pool_fetch::config::PartialConfig;
use pool_fetch::error::BotError;

fn mint_entry(mint: &str) -> MintConfig {
    MintConfig {
        mint: mint.to_owned(),
        raydium_pool_list: None,
        raydium_cp_pool_list: None,
        raydium_clmm_pool_list: None,
        meteora_dlmm_pool_list: None,
        meteora_damm_pool_list: None,
        meteora_damm_v2_pool_list: None,
        pump_pool_list: Some(vec!["p1".to_owned()]),
        whirlpool_pool_list: None,
        solfi_pool_list: None,
        vertigo_pool_list: None,
        lookup_table_accounts: None,
        process_delay: 50,
    }
}

#[test]
fn defaults_apply_when_sources_are_silent() {
    let file = PartialConfig {
        compute_unit_limit: None,
        rpc_url: None,
        private_key: None,
        mint_config_list: Some(vec![mint_entry("m1")]),
        spam: None,
        flashloan: None,
    };
    let config = Config::load(Some(file), PartialConfig::empty()).unwrap();
    assert_eq!(config.bot.compute_unit_limit, 600000);
    assert_eq!(config.rpc.url, "https://api.mainnet-beta.solana.com");
    assert_eq!(config.wallet.private_key, "");
    assert_eq!(config.routing.mint_config_list.len(), 1);
    assert_eq!(config.routing.mint_config_list[0].mint, "m1");
    assert_eq!(config.routing.mint_config_list[0].process_delay, 50);
    assert!(config.spam.is_none());
    assert!(config.flashloan.is_none());
}

#[test]
fn environment_overrides_the_file() {
    let file = PartialConfig {
        compute_unit_limit: Some(100),
        rpc_url: Some("https://file.example".to_owned()),
        private_key: Some("file-key".to_owned()),
        mint_config_list: Some(vec![mint_entry("from-file")]),
        spam: None,
        flashloan: None,
    };
    let env = PartialConfig {
        compute_unit_limit: Some(900000),
        rpc_url: Some("https://env.example".to_owned()),
        private_key: None,
        mint_config_list: None,
        spam: None,
        flashloan: None,
    };
    let config = Config::load(Some(file), env).unwrap();
    // environment wins where it speaks, the file fills the rest
    assert_eq!(config.bot.compute_unit_limit, 900000);
    assert_eq!(config.rpc.url, "https://env.example");
    assert_eq!(config.wallet.private_key, "file-key");
    assert_eq!(config.routing.mint_config_list[0].mint, "from-file");
}

#[test]
fn missing_routing_section_is_an_error() {
    let r = Config::load(None, PartialConfig::empty());
    match r {
        Err(BotError::Config { .. }) => {}
        _ => panic!("expected a configuration error"),
    }
}
