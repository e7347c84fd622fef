use pool_fetch::address::Address;
use pool_fetch::address::pump_program_id;
use pool_fetch::address::raydium_program_id;
use pool_fetch::address::sol_mint;
use pool_fetch::address::token_2022_program_id;
use pool_fetch::address::token_program_id;
use pool_fetch::dex::PoolAccountResult;
use pool_fetch::error::BotError;
use pool_fetch::pools::AccountData;
use pool_fetch::pools::MintPoolData;
use pool_fetch::pools::PoolInfo;
use pool_fetch::token_fetch::FetchEvent;
use pool_fetch::token_fetch::FetchStep;
use pool_fetch::token_fetch::SessionPhase;
use pool_fetch::token_fetch::TokenFetchConfig;
use pool_fetch::token_fetch::TokenFetcher;

// Two well-formed base58 address strings for the queried mint and wallet.
const MINT: &str = "TokenkegQfeZyiNwAJbNbGKPFXCWuBvf9Ss623VQ5DA";
const WALLET: &str = "So11111111111111111111111111111111111111112";

fn addr(n: u8) -> Address {
    Address::new([n; 32])
}

const PUMP_TAG: [u8; 8] = [241, 154, 109, 4, 17, 177, 109, 188];

fn mint_address() -> Address {
    pool_fetch::address::parse_address(MINT).unwrap()
}

fn pump_account_data(base_mint: &Address, quote_mint: &Address) -> Vec<u8> {
    let mut d = vec![0u8; 243];
    d[0..8].copy_from_slice(&PUMP_TAG);
    d[43..75].copy_from_slice(&base_mint.to_array());
    d[75..107].copy_from_slice(&quote_mint.to_array());
    d[139..171].copy_from_slice(&addr(7).to_array());
    d[171..203].copy_from_slice(&addr(8).to_array());
    d[211..243].copy_from_slice(&addr(9).to_array());
    d
}

fn raydium_account_data(coin_mint: &Address, pc_mint: &Address) -> Vec<u8> {
    let mut d = vec![0u8; 464];
    d[336..368].copy_from_slice(&addr(17).to_array());
    d[368..400].copy_from_slice(&addr(18).to_array());
    d[400..432].copy_from_slice(&coin_mint.to_array());
    d[432..464].copy_from_slice(&pc_mint.to_array());
    d
}

fn mint_account() -> AccountData {
    AccountData { owner: token_program_id(), data: vec![0u8; 82] }
}

#[test]
fn default_config_values() {
    let c = TokenFetchConfig::default();
    assert_eq!(c.max_retries, 3);
    assert_eq!(c.retry_delay_ms, 1000);
    assert_eq!(c.batch_size, 10);
    assert_eq!(c.timeout_seconds, 30);
    assert!(c.enable_caching);
    assert_eq!(c.cache_ttl_seconds, 300);
}

#[test]
fn token_program_classification() {
    let fetcher = TokenFetcher::new(TokenFetchConfig::default());
    let standard = AccountData { owner: token_program_id(), data: Vec::new() };
    assert_eq!(fetcher.determine_token_program(&standard, MINT).unwrap(), token_program_id());
    let extended = AccountData { owner: token_2022_program_id(), data: Vec::new() };
    assert_eq!(
        fetcher.determine_token_program(&extended, MINT).unwrap(),
        token_2022_program_id()
    );
    let foreign = AccountData { owner: addr(42), data: Vec::new() };
    assert_eq!(
        fetcher.determine_token_program(&foreign, MINT).unwrap_err(),
        BotError::UnknownTokenProgram { mint: MINT.to_owned() }
    );
}

#[test]
fn retry_exhaustion_after_exactly_max_retries() {
    // an account reader that always fails: exactly 3 read attempts with
    // 2 delays of the configured 1000 ms, then RpcFailure
    let mut fetcher = TokenFetcher::new(TokenFetchConfig::default());
    let (mut session, step) =
        fetcher.initialize_pool_data(MINT, WALLET, None, None, None, None, None, None, None, None, None, None, 0);
    let mut reads = 0;
    let mut sleeps = 0;
    let mut step = step;
    let outcome = loop {
        match step {
            FetchStep::ReadAccount { .. } => {
                reads += 1;
                step = fetcher.pool_data_step(
                    &mut session,
                    FetchEvent::ReadFailed { message: "connection refused".to_owned() },
                    0,
                );
            }
            FetchStep::Sleep { ms } => {
                assert_eq!(ms, 1000);
                sleeps += 1;
                step = fetcher.pool_data_step(&mut session, FetchEvent::Slept, 0);
            }
            other => break other,
        }
    };
    assert_eq!(reads, 3);
    assert_eq!(sleeps, 2);
    match outcome {
        FetchStep::Failed { error } => {
            assert_eq!(
                error,
                BotError::RpcFailure {
                    address: MINT.to_owned(),
                    message: "connection refused".to_owned(),
                }
            );
        }
        _ => panic!("expected the call to fail"),
    }
}

#[test]
fn unknown_token_program_fails_with_no_pool_reads() {
    let mut fetcher = TokenFetcher::new(TokenFetchConfig::default());
    let pools = vec![addr(1); 1].iter().map(|_| MINT.to_owned()).collect::<Vec<_>>();
    let (mut session, step) = fetcher.initialize_pool_data(
        MINT, WALLET, None, None, Some(&pools), None, None, None, None, None, None, None, 0,
    );
    assert!(matches!(step, FetchStep::ReadAccount { .. }));
    let step = fetcher.pool_data_step(
        &mut session,
        FetchEvent::AccountRead(AccountData { owner: addr(42), data: Vec::new() }),
        0,
    );
    match step {
        FetchStep::Failed { error } => {
            assert_eq!(error, BotError::UnknownTokenProgram { mint: MINT.to_owned() });
        }
        _ => panic!("expected failure"),
    }
    // the session ended without ever asking for a pool account
    assert!(matches!(session.phase, SessionPhase::Finished));
}

#[test]
fn invalid_mint_string_fails_immediately() {
    let fetcher = TokenFetcher::new(TokenFetchConfig::default());
    let (session, step) = fetcher.initialize_pool_data(
        "not base58 at all!", WALLET, None, None, None, None, None, None, None, None, None, None,
        0,
    );
    match step {
        FetchStep::Failed { error } => {
            assert_eq!(
                error,
                BotError::InvalidAddress { address: "not base58 at all!".to_owned() }
            );
        }
        _ => panic!("expected failure"),
    }
    assert!(matches!(session.phase, SessionPhase::Finished));
}

#[test]
fn invalid_wallet_string_fails_at_aggregate_init() {
    let mut fetcher = TokenFetcher::new(TokenFetchConfig::default());
    let (mut session, _) = fetcher.initialize_pool_data(
        MINT, "not a wallet", None, None, None, None, None, None, None, None, None, None, 0,
    );
    let step = fetcher.pool_data_step(&mut session, FetchEvent::AccountRead(mint_account()), 0);
    match step {
        FetchStep::Failed { error } => {
            assert_eq!(error, BotError::InvalidAddress { address: "not a wallet".to_owned() });
        }
        _ => panic!("expected failure"),
    }
}

/// Drives a session to completion, answering every pool-account request
/// from the given per-exchange responders, in order.
fn drive(
    fetcher: &mut TokenFetcher,
    session: &mut pool_fetch::token_fetch::FetchSession,
    first: FetchStep,
    responders: &mut Vec<Box<dyn FnMut(&Vec<Address>) -> Vec<PoolAccountResult>>>,
    now: u64,
) -> FetchStep {
    let mut step = first;
    let mut exchange = 0;
    loop {
        match step {
            FetchStep::ReadAccount { .. } => {
                step = fetcher.pool_data_step(session, FetchEvent::AccountRead(mint_account()), now);
            }
            FetchStep::ReadPoolAccounts { ref addresses } => {
                let results = responders[exchange](addresses);
                exchange += 1;
                step = fetcher.pool_data_step(
                    session,
                    FetchEvent::PoolAccountsRead { results },
                    now,
                );
            }
            other => return other,
        }
    }
}

#[test]
fn single_raydium_pool_populates_the_aggregate() {
    let mut fetcher = TokenFetcher::new(TokenFetchConfig::default());
    let raydium_list = vec![WALLET.to_owned()];
    let (mut session, first) = fetcher.initialize_pool_data(
        MINT, WALLET, Some(&raydium_list), None, None, None, None, None, None, None, None, None,
        0,
    );
    let mint = mint_address();
    let mut responders: Vec<Box<dyn FnMut(&Vec<Address>) -> Vec<PoolAccountResult>>> =
        vec![Box::new(move |addrs: &Vec<Address>| {
            assert_eq!(addrs.len(), 1);
            vec![PoolAccountResult::Read(AccountData {
                owner: raydium_program_id(),
                data: raydium_account_data(&mint, &sol_mint()),
            })]
        })];
    let outcome = drive(&mut fetcher, &mut session, first, &mut responders, 0);
    match outcome {
        FetchStep::Done { data } => {
            assert_eq!(data.token_program, token_program_id());
            assert_eq!(data.raydium_pools.len(), 1);
            assert_eq!(data.pump_pools.len(), 0);
            let pool = &data.raydium_pools[0];
            assert_eq!(pool.token_mint, mint_address());
            assert_eq!(pool.base_mint, sol_mint());
            // the queried mint sits on the coin side, so the coin vault
            // holds it and the pc vault holds the native asset
            assert_eq!(pool.token_vault, addr(17));
            assert_eq!(pool.sol_vault, addr(18));
        }
        _ => panic!("expected success"),
    }
}

#[test]
fn one_failing_exchange_leaves_the_other_untouched() {
    let mut fetcher = TokenFetcher::new(TokenFetchConfig::default());
    let pump_list = vec![MINT.to_owned(), WALLET.to_owned()];
    let raydium_list = vec![WALLET.to_owned()];
    let (mut session, first) = fetcher.initialize_pool_data(
        MINT, WALLET, Some(&raydium_list), None, Some(&pump_list), None, None, None, None, None,
        None, None, 0,
    );
    let mint = mint_address();
    // the pump adapter's reads all fail; raydium's succeed
    let mut responders: Vec<Box<dyn FnMut(&Vec<Address>) -> Vec<PoolAccountResult>>> = vec![
        Box::new(|addrs: &Vec<Address>| {
            addrs
                .iter()
                .map(|_| PoolAccountResult::Failed("boom".to_owned()))
                .collect()
        }),
        Box::new(move |_addrs: &Vec<Address>| {
            vec![PoolAccountResult::Read(AccountData {
                owner: raydium_program_id(),
                data: raydium_account_data(&mint, &sol_mint()),
            })]
        }),
    ];
    let outcome = drive(&mut fetcher, &mut session, first, &mut responders, 0);
    match outcome {
        FetchStep::Done { data } => {
            assert_eq!(data.pump_pools.len(), 0);
            assert_eq!(data.raydium_pools.len(), 1);
        }
        _ => panic!("expected success"),
    }
}

#[test]
fn foreign_owned_pool_is_excluded_not_fatal() {
    let mut fetcher = TokenFetcher::new(TokenFetchConfig::default());
    let pump_list = vec![MINT.to_owned(), WALLET.to_owned()];
    let (mut session, first) = fetcher.initialize_pool_data(
        MINT, WALLET, None, None, Some(&pump_list), None, None, None, None, None, None, None, 0,
    );
    let mint = mint_address();
    let mut responders: Vec<Box<dyn FnMut(&Vec<Address>) -> Vec<PoolAccountResult>>> =
        vec![Box::new(move |_addrs: &Vec<Address>| {
            vec![
                PoolAccountResult::Read(AccountData {
                    owner: pump_program_id(),
                    data: pump_account_data(&mint, &sol_mint()),
                }),
                // owned by a foreign program: rejected, not fatal
                PoolAccountResult::Read(AccountData {
                    owner: addr(42),
                    data: pump_account_data(&mint, &sol_mint()),
                }),
            ]
        })];
    let outcome = drive(&mut fetcher, &mut session, first, &mut responders, 0);
    match outcome {
        FetchStep::Done { data } => {
            assert_eq!(data.pump_pools.len(), 1);
        }
        _ => panic!("expected success"),
    }
}

#[test]
fn second_call_within_ttl_reads_nothing_and_matches() {
    let mut fetcher = TokenFetcher::new(TokenFetchConfig::default());
    let raydium_list = vec![WALLET.to_owned()];
    let (mut session, first) = fetcher.initialize_pool_data(
        MINT, WALLET, Some(&raydium_list), None, None, None, None, None, None, None, None, None,
        10,
    );
    let mint = mint_address();
    let mut responders: Vec<Box<dyn FnMut(&Vec<Address>) -> Vec<PoolAccountResult>>> =
        vec![Box::new(move |_addrs: &Vec<Address>| {
            vec![PoolAccountResult::Read(AccountData {
                owner: raydium_program_id(),
                data: raydium_account_data(&mint, &sol_mint()),
            })]
        })];
    let first_outcome = drive(&mut fetcher, &mut session, first, &mut responders, 10);
    let first_data = match first_outcome {
        FetchStep::Done { data } => data,
        _ => panic!("expected success"),
    };

    // second call 200 s later, within the 300 s ttl: answered from the
    // cache, no read of any kind requested
    let (second_session, second_step) = fetcher.initialize_pool_data(
        MINT, WALLET, Some(&raydium_list), None, None, None, None, None, None, None, None, None,
        210,
    );
    assert!(matches!(second_session.phase, SessionPhase::Finished));
    match second_step {
        FetchStep::Done { data } => {
            assert_eq!(data.raydium_pools.len(), first_data.raydium_pools.len());
            assert_eq!(data.raydium_pools[0].pool, first_data.raydium_pools[0].pool);
            assert_eq!(data.mint, first_data.mint);
            assert_eq!(data.wallet, first_data.wallet);
            assert_eq!(data.token_program, first_data.token_program);
        }
        _ => panic!("expected a cached answer"),
    }

    // past the ttl the cache no longer answers
    let (_, third_step) = fetcher.initialize_pool_data(
        MINT, WALLET, Some(&raydium_list), None, None, None, None, None, None, None, None, None,
        311,
    );
    assert!(matches!(third_step, FetchStep::ReadAccount { .. }));
}

#[test]
fn caching_disabled_is_fully_bypassed() {
    let mut config = TokenFetchConfig::default();
    config.enable_caching = false;
    let mut fetcher = TokenFetcher::new(config);
    let (mut session, first) = fetcher.initialize_pool_data(
        MINT, WALLET, None, None, None, None, None, None, None, None, None, None, 0,
    );
    let mut responders: Vec<Box<dyn FnMut(&Vec<Address>) -> Vec<PoolAccountResult>>> = Vec::new();
    let outcome = drive(&mut fetcher, &mut session, first, &mut responders, 0);
    assert!(matches!(outcome, FetchStep::Done { .. }));
    // nothing was cached, so the next call starts from the account read
    let (_, again) = fetcher.initialize_pool_data(
        MINT, WALLET, None, None, None, None, None, None, None, None, None, None, 1,
    );
    assert!(matches!(again, FetchStep::ReadAccount { .. }));
    assert_eq!(fetcher.get_cache_stats(1), (0, 0));
}

#[test]
fn unparseable_pool_address_is_skipped() {
    let mut fetcher = TokenFetcher::new(TokenFetchConfig::default());
    let pump_list = vec!["definitely not an address".to_owned(), MINT.to_owned()];
    let (mut session, first) = fetcher.initialize_pool_data(
        MINT, WALLET, None, None, Some(&pump_list), None, None, None, None, None, None, None, 0,
    );
    let mint = mint_address();
    let mut responders: Vec<Box<dyn FnMut(&Vec<Address>) -> Vec<PoolAccountResult>>> =
        vec![Box::new(move |addrs: &Vec<Address>| {
            // only the parseable address is requested
            assert_eq!(addrs.len(), 1);
            vec![PoolAccountResult::Read(AccountData {
                owner: pump_program_id(),
                data: pump_account_data(&mint, &sol_mint()),
            })]
        })];
    let outcome = drive(&mut fetcher, &mut session, first, &mut responders, 0);
    match outcome {
        FetchStep::Done { data } => assert_eq!(data.pump_pools.len(), 1),
        _ => panic!("expected success"),
    }
}

#[test]
fn clear_expired_cache_forwards_to_sweep() {
    let mut fetcher = TokenFetcher::new(TokenFetchConfig::default());
    let (mut session, first) = fetcher.initialize_pool_data(
        MINT, WALLET, None, None, None, None, None, None, None, None, None, None, 0,
    );
    let mut responders: Vec<Box<dyn FnMut(&Vec<Address>) -> Vec<PoolAccountResult>>> = Vec::new();
    let _ = drive(&mut fetcher, &mut session, first, &mut responders, 0);
    assert_eq!(fetcher.get_cache_stats(0).0, 1);
    // at 400 the entry from time 0 has expired; sweeping drops it
    assert_eq!(fetcher.get_cache_stats(400), (1, 1));
    fetcher.clear_expired_cache(400);
    assert_eq!(fetcher.get_cache_stats(400), (0, 0));
}

#[test]
fn conversion_rejects_pool_missing_auxiliary_field() {
    let fetcher = TokenFetcher::new(TokenFetchConfig::default());
    let info = PoolInfo {
        pool_address: addr(1),
        token_mint: addr(2),
        base_mint: addr(3),
        token_vault: addr(4),
        base_vault: addr(5),
        fee_wallet: None,
        additional_accounts: Vec::new(),
    };
    let err = fetcher.convert_pump_pool(&info).unwrap_err();
    assert_eq!(err, BotError::MissingAuxiliaryField { field: "coin_creator_vault_ata".to_owned() });

    // a batch containing such a pool simply omits it
    let mut data = MintPoolData {
        mint: addr(9),
        wallet: addr(9),
        token_program: addr(9),
        pump_pools: Vec::new(),
        raydium_pools: Vec::new(),
    };
    fetcher.convert_and_add_pools(&mut data, "pump", vec![info]).unwrap();
    assert_eq!(data.pump_pools.len(), 0);
}

#[test]
fn conversion_ignores_unknown_exchange() {
    let fetcher = TokenFetcher::new(TokenFetchConfig::default());
    let mut data = MintPoolData {
        mint: addr(9),
        wallet: addr(9),
        token_program: addr(9),
        pump_pools: Vec::new(),
        raydium_pools: Vec::new(),
    };
    let info = PoolInfo {
        pool_address: addr(1),
        token_mint: addr(2),
        base_mint: addr(3),
        token_vault: addr(4),
        base_vault: addr(5),
        fee_wallet: None,
        additional_accounts: Vec::new(),
    };
    fetcher.convert_and_add_pools(&mut data, "someday-exchange", vec![info]).unwrap();
    assert_eq!(data.pump_pools.len(), 0);
    assert_eq!(data.raydium_pools.len(), 0);
}
