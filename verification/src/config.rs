use vstd::prelude::*;
use crate::error::BotError;

verus! {

/// Process configuration: trading targets, network endpoints and wallet
/// material.
#[derive(Debug, Clone)]
pub struct Config {
    pub bot: BotConfig,
    pub routing: RoutingConfig,
    pub rpc: RpcConfig,
    pub spam: Option<SpamConfig>,
    pub wallet: WalletConfig,
    pub flashloan: Option<FlashloanConfig>,
}

#[derive(Debug, Clone)]
pub struct BotConfig {
    pub compute_unit_limit: u32,
}

#[derive(Debug, Clone)]
pub struct RoutingConfig {
    pub mint_config_list: Vec<MintConfig>,
}

/// One traded mint and its per-exchange pool address lists; a list left
/// out means that exchange is not queried for this mint.
#[derive(Debug, Clone)]
pub struct MintConfig {
    pub mint: String,
    pub raydium_pool_list: Option<Vec<String>>,
    pub raydium_cp_pool_list: Option<Vec<String>>,
    pub raydium_clmm_pool_list: Option<Vec<String>>,
    pub meteora_dlmm_pool_list: Option<Vec<String>>,
    pub meteora_damm_pool_list: Option<Vec<String>>,
    pub meteora_damm_v2_pool_list: Option<Vec<String>>,
    pub pump_pool_list: Option<Vec<String>>,
    pub whirlpool_pool_list: Option<Vec<String>>,
    pub solfi_pool_list: Option<Vec<String>>,
    pub vertigo_pool_list: Option<Vec<String>>,
    pub lookup_table_accounts: Option<Vec<String>>,
    pub process_delay: u64,
}

#[derive(Debug, Clone)]
pub struct RpcConfig {
    pub url: String,
}

#[derive(Debug, Clone)]
pub struct SpamConfig {
    pub enabled: bool,
    pub sending_rpc_urls: Vec<String>,
    pub compute_unit_price: u64,
    pub max_retries: Option<u64>,
}

#[derive(Debug, Clone)]
pub struct WalletConfig {
    pub private_key: String,
}

#[derive(Debug, Clone)]
pub struct FlashloanConfig {
    pub enabled: bool,
}

/// The values one configuration source supplies: any subset of the leaf
/// settings. The loader merges sources by priority.
pub struct PartialConfig {
    pub compute_unit_limit: Option<u32>,
    pub rpc_url: Option<String>,
    pub private_key: Option<String>,
    pub mint_config_list: Option<Vec<MintConfig>>,
    pub spam: Option<SpamConfig>,
    pub flashloan: Option<FlashloanConfig>,
}

impl PartialConfig {
    /// A source that supplies nothing.
    pub fn empty() -> (r: PartialConfig)
        ensures
            r.compute_unit_limit is None,
            r.rpc_url is None,
            r.private_key is None,
            r.mint_config_list is None,
            r.spam is None,
            r.flashloan is None,
    {
        PartialConfig {
            compute_unit_limit: None,
            rpc_url: None,
            private_key: None,
            mint_config_list: None,
            spam: None,
            flashloan: None,
        }
    }
}

impl Config {
    /// Merges configuration sources by priority: environment values first,
    /// then the file (when one was found), then the defaults. The defaults
    /// cover the compute-unit limit, the network endpoint and an empty
    /// wallet key; the routing section has no default, so a call with no
    /// source supplying it fails.
    pub fn load(file: Option<PartialConfig>, env: PartialConfig) -> (r: Result<Config, BotError>)
        ensures
            ({
                let file_c = match file {
                    Some(f) => f,
                    None => PartialConfig {
                        compute_unit_limit: None,
                        rpc_url: None,
                        private_key: None,
                        mint_config_list: None,
                        spam: None,
                        flashloan: None,
                    },
                };
                &&& (r is Ok <==> (env.mint_config_list is Some || file_c.mint_config_list
                    is Some))
                &&& (r matches Ok(c) ==> {
                    &&& c.bot.compute_unit_limit == (match env.compute_unit_limit {
                        Some(v) => v,
                        None => match file_c.compute_unit_limit {
                            Some(v) => v,
                            None => 600000u32,
                        },
                    })
                    &&& c.rpc.url@ == (match env.rpc_url {
                        Some(v) => v@,
                        None => match file_c.rpc_url {
                            Some(v) => v@,
                            None => "https://api.mainnet-beta.solana.com"@,
                        },
                    })
                    &&& c.wallet.private_key@ == (match env.private_key {
                        Some(v) => v@,
                        None => match file_c.private_key {
                            Some(v) => v@,
                            None => ""@,
                        },
                    })
                    &&& c.routing.mint_config_list@ == (match env.mint_config_list {
                        Some(v) => v@,
                        None => file_c.mint_config_list->0@,
                    })
                    &&& c.spam == (match env.spam {
                        Some(v) => Some(v),
                        None => file_c.spam,
                    })
                    &&& c.flashloan == (match env.flashloan {
                        Some(v) => Some(v),
                        None => file_c.flashloan,
                    })
                })
                &&& (r matches Err(e) ==> e matches BotError::Config { .. })
            }),
    {
        let file_c = match file {
            Some(f) => f,
            None => PartialConfig::empty(),
        };
        let compute_unit_limit = match env.compute_unit_limit {
            Some(v) => v,
            None => match file_c.compute_unit_limit {
                Some(v) => v,
                None => 600000,
            },
        };
        let url = match env.rpc_url {
            Some(v) => v,
            None => match file_c.rpc_url {
                Some(v) => v,
                None => "https://api.mainnet-beta.solana.com".to_owned(),
            },
        };
        let private_key = match env.private_key {
            Some(v) => v,
            None => match file_c.private_key {
                Some(v) => v,
                None => "".to_owned(),
            },
        };
        let mint_config_list = match env.mint_config_list {
            Some(v) => v,
            None => match file_c.mint_config_list {
                Some(v) => v,
                None => {
                    return Err(
                        BotError::Config {
                            message: "routing.mint_config_list is required".to_owned(),
                        },
                    );
                },
            },
        };
        let spam = match env.spam {
            Some(v) => Some(v),
            None => file_c.spam,
        };
        let flashloan = match env.flashloan {
            Some(v) => Some(v),
            None => file_c.flashloan,
        };
        Ok(
            Config {
                bot: BotConfig { compute_unit_limit },
                routing: RoutingConfig { mint_config_list },
                rpc: RpcConfig { url },
                spam,
                wallet: WalletConfig { private_key },
                flashloan,
            },
        )
    }
}

} // verus!
