use vstd::prelude::*;
use crate::address::Address;
use crate::address::parse_address;
use crate::address::spec_parsed_address;
use crate::address::spec_token_2022_program;
use crate::address::spec_token_program;
use crate::address::spec_zero_address;
use crate::address::token_2022_program_id;
use crate::address::token_program_id;
use crate::cache::PoolDataCache;
use crate::dex::DexAdapter;
use crate::dex::DexRegistry;
use crate::dex::PoolAccountResult;
use crate::error::BotError;
use crate::pools::AccountData;
use crate::pools::MintPoolData;
use crate::pools::PoolInfo;
use crate::pools::PoolInfoV;
use crate::pools::PumpPoolV;
use crate::pools::RaydiumPoolV;
use crate::pools::lookup_additional;
use crate::pools::pool_data_eq;
use crate::pools::pool_views;
use crate::pools::addr_views;
use crate::pools::pump_views;
use crate::pools::raydium_views;
use crate::pools::spec_lookup;
use crate::pump::PumpDex;
use crate::pump::spec_pump_infos;
use crate::raydium::RaydiumDex;
use crate::raydium::spec_raydium_infos;

verus! {

/// Configuration for pool-data fetching. `batch_size` and `timeout_seconds`
/// are accepted and carried as part of the configuration surface but are
/// reserved: no fetch path consults them yet, deliberately, until batching
/// and deadlines are designed.
#[derive(Debug, Clone)]
pub struct TokenFetchConfig {
    pub max_retries: u32,
    pub retry_delay_ms: u64,
    pub batch_size: usize,
    pub timeout_seconds: u64,
    pub enable_caching: bool,
    pub cache_ttl_seconds: u64,
}

impl Default for TokenFetchConfig {
    /// Three attempts a second apart, and five minutes of caching.
    fn default() -> (r: TokenFetchConfig)
        ensures
            r.max_retries == 3,
            r.retry_delay_ms == 1000,
            r.batch_size == 10,
            r.timeout_seconds == 30,
            r.enable_caching == true,
            r.cache_ttl_seconds == 300,
    {
        TokenFetchConfig {
            max_retries: 3,
            retry_delay_ms: 1000,
            batch_size: 10,
            timeout_seconds: 30,
            enable_caching: true,
            cache_ttl_seconds: 300,
        }
    }
}

/// Whether a decoded pump pool can be converted to its record shape: both
/// creator-vault addresses must be present in the auxiliary mapping.
pub open spec fn pump_record_ok(p: PoolInfoV) -> bool {
    &&& spec_lookup(p.additional_accounts, "coin_creator_vault_ata"@) is Some
    &&& spec_lookup(p.additional_accounts, "coin_creator_vault_authority"@) is Some
}

/// The pump record a decoded pool converts to, meaningful when
/// `pump_record_ok` holds.
pub open spec fn spec_pump_record(p: PoolInfoV) -> PumpPoolV {
    PumpPoolV {
        pool: p.pool_address,
        token_vault: p.token_vault,
        sol_vault: p.base_vault,
        fee_token_wallet: match p.fee_wallet {
            Some(f) => f,
            None => spec_zero_address(),
        },
        coin_creator_vault_ata: spec_lookup(p.additional_accounts, "coin_creator_vault_ata"@)->0,
        coin_creator_vault_authority: spec_lookup(
            p.additional_accounts,
            "coin_creator_vault_authority"@,
        )->0,
        token_mint: p.token_mint,
        base_mint: p.base_mint,
    }
}

/// The pump records of a batch of decoded pools, in order; a pool missing a
/// required auxiliary address is rejected and contributes nothing.
pub open spec fn spec_pump_records(infos: Seq<PoolInfoV>) -> Seq<PumpPoolV>
    decreases infos.len(),
{
    if infos.len() == 0 {
        Seq::empty()
    } else {
        spec_pump_records(infos.drop_last()) + if pump_record_ok(infos.last()) {
            seq![spec_pump_record(infos.last())]
        } else {
            Seq::empty()
        }
    }
}

/// The raydium record a decoded pool converts to; the conversion never
/// fails.
pub open spec fn spec_raydium_record(p: PoolInfoV) -> RaydiumPoolV {
    RaydiumPoolV {
        pool: p.pool_address,
        token_vault: p.token_vault,
        sol_vault: p.base_vault,
        token_mint: p.token_mint,
        base_mint: p.base_mint,
    }
}

/// The raydium records of a batch of decoded pools, in order.
pub open spec fn spec_raydium_records(infos: Seq<PoolInfoV>) -> Seq<RaydiumPoolV>
    decreases infos.len(),
{
    if infos.len() == 0 {
        Seq::empty()
    } else {
        spec_raydium_records(infos.drop_last()) + seq![spec_raydium_record(infos.last())]
    }
}

/// What the caller of a fetch session must do next, or how the session
/// ended.
pub enum FetchStep {
    /// Read the account at this address and hand back `AccountRead` or
    /// `ReadFailed`.
    ReadAccount { address: Address },
    /// Wait this many milliseconds and hand back `Slept`.
    Sleep { ms: u64 },
    /// Read every listed pool account, in order, and hand back
    /// `PoolAccountsRead` with one result per address.
    ReadPoolAccounts { addresses: Vec<Address> },
    /// The call succeeded with this aggregate.
    Done { data: MintPoolData },
    /// The call failed.
    Failed { error: BotError },
}

/// The outcome of the action a `FetchStep` asked for.
pub enum FetchEvent {
    AccountRead(AccountData),
    ReadFailed { message: String },
    Slept,
    PoolAccountsRead { results: Vec<PoolAccountResult> },
}

/// One configured exchange of a session: the adapter and the caller's pool
/// address list for it.
pub struct ExchangeTask {
    pub adapter: DexAdapter,
    pub addresses: Vec<String>,
}

/// Where a session stands: what event it is waiting for.
#[derive(Clone, Copy, Debug, PartialEq, Eq, Structural)]
pub enum SessionPhase {
    /// A read of the mint account is outstanding; this many attempts have
    /// already failed.
    MintFetch { failures: u32 },
    /// A retry delay is being waited out after this many failed attempts.
    RetryWait { failures: u32 },
    /// The pool-account reads of the task at this index are outstanding.
    Exchanges { task: usize },
    /// The session has ended in `Done` or `Failed`.
    Finished,
}

/// One in-flight pool-data call, driven by `pool_data_step`: the caller
/// performs each returned `FetchStep` and hands the outcome back as a
/// `FetchEvent`.
pub struct FetchSession {
    pub mint_text: String,
    pub wallet_text: String,
    pub mint: Address,
    pub tasks: Vec<ExchangeTask>,
    pub aggregate: Option<MintPoolData>,
    pub pending: Vec<Address>,
    pub phase: SessionPhase,
}

impl FetchSession {
    /// What every reachable session state satisfies.
    pub open spec fn inv(self) -> bool {
        match self.phase {
            SessionPhase::MintFetch { failures } => {
                &&& spec_parsed_address(self.mint_text@) == Some(self.mint@)
                &&& self.aggregate is None
                &&& failures < u32::MAX
            },
            SessionPhase::RetryWait { failures } => {
                &&& spec_parsed_address(self.mint_text@) == Some(self.mint@)
                &&& self.aggregate is None
                &&& failures < u32::MAX
            },
            SessionPhase::Exchanges { task } => {
                &&& spec_parsed_address(self.mint_text@) == Some(self.mint@)
                &&& task < self.tasks@.len()
                &&& self.aggregate is Some
                &&& (self.aggregate->0).mint@ == self.mint@
                &&& spec_parsed_address(self.wallet_text@) == Some((self.aggregate->0).wallet@)
            },
            SessionPhase::Finished => true,
        }
    }
}

/// The views of the addresses parsed out of a pool list: unparseable
/// strings are skipped.
pub open spec fn spec_parsed_addrs(list: Seq<String>) -> Seq<Seq<u8>>
    decreases list.len(),
{
    if list.len() == 0 {
        Seq::empty()
    } else {
        spec_parsed_addrs(list.drop_last()) + match spec_parsed_address(list.last()@) {
            Some(a) => seq![a],
            None => Seq::empty(),
        }
    }
}

/// The tasks a session starts with, given the two supported pool lists:
/// "pump" first, then "raydium", each present only when the caller supplied
/// a list.
pub open spec fn spec_session_tasks(
    pump_list: Option<Seq<String>>,
    raydium_list: Option<Seq<String>>,
) -> Seq<(DexAdapter, Seq<String>)> {
    (match pump_list {
        Some(l) => seq![(DexAdapter::Pump(PumpDex {  }), l)],
        None => Seq::empty(),
    }) + (match raydium_list {
        Some(l) => seq![(DexAdapter::Raydium(RaydiumDex {  }), l)],
        None => Seq::empty(),
    })
}

pub open spec fn opt_list(o: Option<&Vec<String>>) -> Option<Seq<String>> {
    match o {
        Some(v) => Some(v@),
        None => None,
    }
}

pub open spec fn task_views(tasks: Seq<ExchangeTask>) -> Seq<(DexAdapter, Seq<String>)> {
    tasks.map_values(|t: ExchangeTask| (t.adapter, t.addresses@))
}

/// Whether an aggregate holds exactly these views: the key addresses and
/// both pool lists.
pub open spec fn data_matches(
    d: MintPoolData,
    mint: Seq<u8>,
    wallet: Seq<u8>,
    token_program: Seq<u8>,
    pump: Seq<PumpPoolV>,
    raydium: Seq<RaydiumPoolV>,
) -> bool {
    &&& d.mint@ == mint
    &&& d.wallet@ == wallet
    &&& d.token_program@ == token_program
    &&& pump_views(d.pump_pools@) == pump
    &&& raydium_views(d.raydium_pools@) == raydium
}

/// What holds after a session moves past one milestone carrying an
/// aggregate with the given views: either the next task's reads are
/// requested, or the session completes, caching the aggregate when caching
/// is enabled.
pub open spec fn step_advanced(
    f0: TokenFetcher,
    f1: TokenFetcher,
    mint_text: Seq<char>,
    wallet_text: Seq<char>,
    s1: FetchSession,
    r: FetchStep,
    tasks: Seq<ExchangeTask>,
    from: int,
    now: u64,
    mint: Seq<u8>,
    wallet: Seq<u8>,
    token_program: Seq<u8>,
    pump: Seq<PumpPoolV>,
    raydium: Seq<RaydiumPoolV>,
) -> bool {
    &&& s1.mint_text@ == mint_text
    &&& s1.wallet_text@ == wallet_text
    &&& s1.tasks@ == tasks
    &&& f1.config == f0.config
    &&& if from < tasks.len() {
        &&& s1.phase == (SessionPhase::Exchanges { task: from as usize })
        &&& addr_views(s1.pending@) == spec_parsed_addrs(tasks[from].addresses@)
        &&& (r matches FetchStep::ReadPoolAccounts { addresses } && addresses@ == s1.pending@)
        &&& (s1.aggregate matches Some(a) && data_matches(
            a,
            mint,
            wallet,
            token_program,
            pump,
            raydium,
        ))
        &&& f1 == f0
    } else {
        &&& s1.phase == SessionPhase::Finished
        &&& (r matches FetchStep::Done { data } && data_matches(
            data,
            mint,
            wallet,
            token_program,
            pump,
            raydium,
        ))
        &&& (f0.config.enable_caching ==> {
            &&& f1.cache.spec_contains(mint_text, wallet_text)
            &&& data_matches(
                f1.cache.spec_entry(mint_text, wallet_text).data,
                mint,
                wallet,
                token_program,
                pump,
                raydium,
            )
            &&& f1.cache.spec_entry(mint_text, wallet_text).timestamp == now
            &&& forall|m: Seq<char>, w: Seq<char>|
                !(m == mint_text && w == wallet_text) ==> #[trigger] f1.cache.spec_contains(m, w)
                    == f0.cache.spec_contains(m, w)
            &&& forall|m: Seq<char>, w: Seq<char>|
                !(m == mint_text && w == wallet_text) && f0.cache.spec_contains(m, w)
                    ==> #[trigger] f1.cache.spec_entry(m, w) == f0.cache.spec_entry(m, w)
        })
        &&& (!f0.config.enable_caching ==> f1 == f0)
    }
}

/// Parses a pool address list, skipping strings that do not parse (each
/// such pool is simply not read).
fn parse_pool_addresses(list: &Vec<String>) -> (r: Vec<Address>)
    ensures
        addr_views(r@) == spec_parsed_addrs(list@),
{
    let n = list.len();
    let mut out: Vec<Address> = Vec::new();
    let mut i: usize = 0;
    while i < n
        invariant
            n == list@.len(),
            0 <= i <= n,
            addr_views(out@) == spec_parsed_addrs(list@.take(i as int)),
        decreases n - i,
    {
        let ghost prefix = list@.take(i as int);
        proof {
            assert(list@.take(i + 1).drop_last() =~= prefix);
            assert(list@.take(i + 1).last() == list@[i as int]);
        }
        match parse_address(list[i].as_str()) {
            Some(a) => {
                let ghost before = out@;
                out.push(a);
                proof {
                    assert(addr_views(out@) =~= addr_views(before).push(a@));
                }
            },
            None => {
                // an unparseable address is skipped
            },
        }
        i += 1;
    }
    proof {
        assert(list@.take(n as int) =~= list@);
    }
    out
}

/// Fetches and caches pool data: the cache check, the retried mint-account
/// read, the program resolution, the per-exchange pool reads and the cache
/// write are driven as a state machine, so that the network reads and the
/// retry delays stay with the caller.
pub struct TokenFetcher {
    pub config: TokenFetchConfig,
    pub cache: PoolDataCache,
}

impl TokenFetcher {
    /// The cache as it stands; keys are `(mint, wallet)` string pairs.
    pub open spec fn spec_cache(self) -> PoolDataCache {
        self.cache
    }

    pub fn new(config: TokenFetchConfig) -> (r: TokenFetcher)
        ensures
            r.config == config,
            r.spec_cache().spec_len() == 0,
            forall|m: Seq<char>, w: Seq<char>| !r.spec_cache().spec_contains(m, w),
    {
        TokenFetcher { config, cache: PoolDataCache::new() }
    }

    /// Removes every cache entry whose age has reached the configured ttl.
    pub fn clear_expired_cache(&mut self, now: u64)
        ensures
            final(self).config == old(self).config,
            forall|m: Seq<char>, w: Seq<char>| #[trigger]
                final(self).spec_cache().spec_contains(m, w) <==> old(self).spec_cache().spec_live(
                    m,
                    w,
                    old(self).config.cache_ttl_seconds,
                    now,
                ),
            forall|m: Seq<char>, w: Seq<char>|
                final(self).spec_cache().spec_contains(m, w)
                    ==> #[trigger] final(self).spec_cache().spec_entry(m, w) == old(
                    self,
                ).spec_cache().spec_entry(m, w),
    {
        let ttl = self.config.cache_ttl_seconds;
        self.cache.sweep(ttl, now);
    }

    /// `(total entries, expired-but-present entries)` of the cache at
    /// `now`.
    pub fn get_cache_stats(&self, now: u64) -> (r: (usize, usize))
        ensures
            r.0 == self.spec_cache().spec_len(),
            r.1 == self.spec_cache().spec_expired(self.config.cache_ttl_seconds, now),
    {
        self.cache.stats(self.config.cache_ttl_seconds, now)
    }

    /// Classifies the mint account's owning program: the standard token
    /// program and the extended "2022" variant are recognized; any other
    /// owner fails the whole call.
    pub fn determine_token_program(&self, mint_account: &AccountData, mint: &str) -> (r: Result<
        Address,
        BotError,
    >)
        ensures
            r is Ok <==> (mint_account.owner@ == spec_token_program() || mint_account.owner@
                == spec_token_2022_program()),
            r matches Ok(p) ==> p@ == mint_account.owner@,
            r matches Err(e) ==> (e matches BotError::UnknownTokenProgram { mint: m } && m@
                == mint@),
    {
        let standard = token_program_id();
        let extended = token_2022_program_id();
        if mint_account.owner == standard {
            Ok(standard)
        } else if mint_account.owner == extended {
            Ok(extended)
        } else {
            Err(BotError::UnknownTokenProgram { mint: mint.to_owned() })
        }
    }

    /// Converts one decoded pump pool to its record shape. A required
    /// auxiliary address missing from the mapping fails the conversion of
    /// this pool; it is never silently filled with a default.
    pub fn convert_pump_pool(&self, info: &PoolInfo) -> (r: Result<
        crate::pools::PumpPool,
        BotError,
    >)
        ensures
            r is Ok <==> pump_record_ok(info@),
            r matches Ok(p) ==> p@ == spec_pump_record(info@),
            r matches Err(e) ==> (e matches BotError::MissingAuxiliaryField { field } && field@
                == (if spec_lookup(info@.additional_accounts, "coin_creator_vault_ata"@) is None {
                "coin_creator_vault_ata"@
            } else {
                "coin_creator_vault_authority"@
            })),
    {
        let ata_key: String = "coin_creator_vault_ata".to_owned();
        let authority_key: String = "coin_creator_vault_authority".to_owned();
        let coin_creator_vault_ata = match lookup_additional(&info.additional_accounts, &ata_key) {
            Some(a) => a,
            None => {
                return Err(BotError::MissingAuxiliaryField { field: ata_key });
            },
        };
        let coin_creator_vault_authority = match lookup_additional(
            &info.additional_accounts,
            &authority_key,
        ) {
            Some(a) => a,
            None => {
                return Err(BotError::MissingAuxiliaryField { field: authority_key });
            },
        };
        let fee_token_wallet = match info.fee_wallet {
            Some(f) => f,
            None => Address::zero(),
        };
        Ok(
            crate::pools::PumpPool {
                pool: info.pool_address,
                token_vault: info.token_vault,
                sol_vault: info.base_vault,
                fee_token_wallet,
                coin_creator_vault_ata,
                coin_creator_vault_authority,
                token_mint: info.token_mint,
                base_mint: info.base_mint,
            },
        )
    }

    /// Converts one decoded raydium pool to its record shape; this
    /// conversion never fails.
    pub fn convert_raydium_pool(&self, info: &PoolInfo) -> (r: crate::pools::RaydiumPool)
        ensures
            r@ == spec_raydium_record(info@),
    {
        crate::pools::RaydiumPool {
            pool: info.pool_address,
            token_vault: info.token_vault,
            sol_vault: info.base_vault,
            token_mint: info.token_mint,
            base_mint: info.base_mint,
        }
    }

    /// Converts decoded pools to the exchange's record shape and appends
    /// them to the aggregate. A pump pool missing a required auxiliary
    /// address is rejected and omitted, never silently filled with a
    /// default; an unknown exchange name leaves the aggregate untouched.
    #[verifier::loop_isolation(false)]
    pub fn convert_and_add_pools(
        &self,
        pool_data: &mut MintPoolData,
        dex_name: &str,
        pools: Vec<PoolInfo>,
    ) -> (r: Result<(), BotError>)
        ensures
            r is Ok,
            final(pool_data).mint == old(pool_data).mint,
            final(pool_data).wallet == old(pool_data).wallet,
            final(pool_data).token_program == old(pool_data).token_program,
            dex_name@ == "pump"@ ==> {
                &&& pump_views(final(pool_data).pump_pools@) == pump_views(
                    old(pool_data).pump_pools@,
                ) + spec_pump_records(pool_views(pools@))
                &&& final(pool_data).raydium_pools@ == old(pool_data).raydium_pools@
            },
            dex_name@ == "raydium"@ ==> {
                &&& raydium_views(final(pool_data).raydium_pools@) == raydium_views(
                    old(pool_data).raydium_pools@,
                ) + spec_raydium_records(pool_views(pools@))
                &&& final(pool_data).pump_pools@ == old(pool_data).pump_pools@
            },
            dex_name@ != "pump"@ && dex_name@ != "raydium"@ ==> {
                &&& final(pool_data).pump_pools@ == old(pool_data).pump_pools@
                &&& final(pool_data).raydium_pools@ == old(pool_data).raydium_pools@
            },
    {
        let name: String = dex_name.to_owned();
        if name == "pump".to_owned() {
            let n = pools.len();
            let mut i: usize = 0;
            while i < n
                invariant
                    n == pools@.len(),
                    0 <= i <= n,
                    pool_data.mint == old(pool_data).mint,
                    pool_data.wallet == old(pool_data).wallet,
                    pool_data.token_program == old(pool_data).token_program,
                    pool_data.raydium_pools@ == old(pool_data).raydium_pools@,
                    pump_views(pool_data.pump_pools@) == pump_views(
                        old(pool_data).pump_pools@,
                    ) + spec_pump_records(pool_views(pools@.take(i as int))),
                decreases n - i,
            {
                let ghost prefix = pool_views(pools@.take(i as int));
                proof {
                    assert(pool_views(pools@.take(i + 1)).drop_last() =~= prefix);
                    assert(pool_views(pools@.take(i + 1)).last() == pools@[i as int]@);
                }
                let info = &pools[i];
                match self.convert_pump_pool(info) {
                    Ok(record) => {
                        let ghost before = pool_data.pump_pools@;
                        pool_data.pump_pools.push(record);
                        proof {
                            assert(pump_views(pool_data.pump_pools@) =~= pump_views(before).push(
                                record@,
                            ));
                        }
                    },
                    Err(_) => {
                        // a pool missing a required auxiliary address is
                        // rejected and omitted from the aggregate
                    },
                }
                i += 1;
            }
            proof {
                reveal_strlit("pump");
                reveal_strlit("raydium");
                assert(pools@.take(n as int) =~= pools@);
                assert("pump"@.len() == 4);
                assert("raydium"@.len() == 7);
                assert(dex_name@ != "raydium"@);
            }
            Ok(())
        } else if name == "raydium".to_owned() {
            let n = pools.len();
            let mut i: usize = 0;
            while i < n
                invariant
                    n == pools@.len(),
                    0 <= i <= n,
                    pool_data.mint == old(pool_data).mint,
                    pool_data.wallet == old(pool_data).wallet,
                    pool_data.token_program == old(pool_data).token_program,
                    pool_data.pump_pools@ == old(pool_data).pump_pools@,
                    raydium_views(pool_data.raydium_pools@) == raydium_views(
                        old(pool_data).raydium_pools@,
                    ) + spec_raydium_records(pool_views(pools@.take(i as int))),
                decreases n - i,
            {
                let ghost prefix = pool_views(pools@.take(i as int));
                proof {
                    assert(pool_views(pools@.take(i + 1)).drop_last() =~= prefix);
                    assert(pool_views(pools@.take(i + 1)).last() == pools@[i as int]@);
                }
                let info = &pools[i];
                let record = self.convert_raydium_pool(info);
                let ghost before = pool_data.raydium_pools@;
                pool_data.raydium_pools.push(record);
                proof {
                    assert(raydium_views(pool_data.raydium_pools@) =~= raydium_views(before).push(
                        record@,
                    ));
                }
                i += 1;
            }
            proof {
                reveal_strlit("pump");
                reveal_strlit("raydium");
                assert(pools@.take(n as int) =~= pools@);
                assert(dex_name@ == "raydium"@ && dex_name@ != "pump"@);
            }
            Ok(())
        } else {
            // unknown exchange names are ignored, a forward-compatible no-op
            Ok(())
        }
    }

    /// Completes a call: caches a value-copy snapshot of the aggregate when
    /// caching is enabled, and hands the aggregate to the caller.
    fn store_aggregate(
        &mut self,
        mint_text: &String,
        wallet_text: &String,
        data: MintPoolData,
        now: u64,
    ) -> (r: FetchStep)
        ensures
            r matches FetchStep::Done { data: d } && pool_data_eq(d, data),
            final(self).config == old(self).config,
            old(self).config.enable_caching ==> {
                &&& final(self).cache.spec_contains(mint_text@, wallet_text@)
                &&& pool_data_eq(
                    final(self).cache.spec_entry(mint_text@, wallet_text@).data,
                    data,
                )
                &&& final(self).cache.spec_entry(mint_text@, wallet_text@).timestamp == now
                &&& forall|m: Seq<char>, w: Seq<char>|
                    !(m == mint_text@ && w == wallet_text@) ==> #[trigger] final(self).cache.spec_contains(m, w) == old(
                        self,
                    ).cache.spec_contains(m, w)
                &&& forall|m: Seq<char>, w: Seq<char>|
                    !(m == mint_text@ && w == wallet_text@) && old(self).cache.spec_contains(m, w)
                        ==> #[trigger] final(self).cache.spec_entry(m, w) == old(
                        self,
                    ).cache.spec_entry(m, w)
            },
            !old(self).config.enable_caching ==> *final(self) == *old(self),
    {
        if self.config.enable_caching {
            let snapshot = data.duplicate();
            self.cache.put(mint_text.clone(), wallet_text.clone(), snapshot, now);
        }
        FetchStep::Done { data }
    }

    /// Moves a session to its next milestone: requests the pool reads of
    /// the task at `from`, or completes the call when no task is left.
    fn advance(&mut self, session: &mut FetchSession, from: usize, now: u64) -> (r: FetchStep)
        requires
            spec_parsed_address(old(session).mint_text@) == Some(old(session).mint@),
            old(session).aggregate is Some,
            (old(session).aggregate->0).mint@ == old(session).mint@,
            spec_parsed_address(old(session).wallet_text@) == Some(
                (old(session).aggregate->0).wallet@,
            ),
        ensures
            final(session).inv(),
            final(session).mint == old(session).mint,
            step_advanced(
                *old(self),
                *final(self),
                old(session).mint_text@,
                old(session).wallet_text@,
                *final(session),
                r,
                old(session).tasks@,
                from as int,
                now,
                (old(session).aggregate->0).mint@,
                (old(session).aggregate->0).wallet@,
                (old(session).aggregate->0).token_program@,
                pump_views((old(session).aggregate->0).pump_pools@),
                raydium_views((old(session).aggregate->0).raydium_pools@),
            ),
    {
        if from < session.tasks.len() {
            let pending = parse_pool_addresses(&session.tasks[from].addresses);
            let addresses = pending.clone();
            proof {
                assert forall|i: int| 0 <= i < addresses@.len() implies addresses@[i]
                    == pending@[i] by {
                }
                assert(addresses@ =~= pending@);
            }
            session.pending = pending;
            session.phase = SessionPhase::Exchanges { task: from };
            FetchStep::ReadPoolAccounts { addresses }
        } else {
            session.phase = SessionPhase::Finished;
            let mut taken: Option<MintPoolData> = None;
            core::mem::swap(&mut taken, &mut session.aggregate);
            let data = match taken {
                Some(data) => data,
                None => {
                    // unreachable: the caller established the aggregate
                    proof {
                        assert(false);
                    }
                    return FetchStep::Failed {
                        error: BotError::Config { message: String::new() },
                    };
                },
            };
            self.store_aggregate(&session.mint_text, &session.wallet_text, data, now)
        }
    }

    /// The fetch-pool-data entry point. Checks the cache first: a live
    /// entry ends the call at once with a snapshot and no account read.
    /// Otherwise a session starts with a read of the mint account; the
    /// caller drives it with `pool_data_step`. Exchanges beyond the two
    /// supported ones are accepted and ignored.
    pub fn initialize_pool_data(
        &self,
        mint: &str,
        wallet_account: &str,
        raydium_pools: Option<&Vec<String>>,
        raydium_cp_pools: Option<&Vec<String>>,
        pump_pools: Option<&Vec<String>>,
        dlmm_pools: Option<&Vec<String>>,
        whirlpool_pools: Option<&Vec<String>>,
        raydium_clmm_pools: Option<&Vec<String>>,
        meteora_damm_pools: Option<&Vec<String>>,
        solfi_pools: Option<&Vec<String>>,
        meteora_damm_v2_pools: Option<&Vec<String>>,
        vertigo_pools: Option<&Vec<String>>,
        now: u64,
    ) -> (r: (FetchSession, FetchStep))
        ensures
            r.0.inv(),
            ({
                let hit = self.config.enable_caching && self.cache.spec_live(
                    mint@,
                    wallet_account@,
                    self.config.cache_ttl_seconds,
                    now,
                );
                &&& (hit ==> (r.1 matches FetchStep::Done { data } && pool_data_eq(
                    data,
                    self.cache.spec_entry(mint@, wallet_account@).data,
                ) && r.0.phase == SessionPhase::Finished))
                &&& (!hit && spec_parsed_address(mint@) is None ==> (r.1 matches FetchStep::Failed {
                    error,
                } && error matches BotError::InvalidAddress { address } && address@ == mint@
                    && r.0.phase == SessionPhase::Finished))
                &&& (!hit && spec_parsed_address(mint@) is Some ==> {
                    &&& (r.1 matches FetchStep::ReadAccount { address } && address@
                        == spec_parsed_address(mint@)->0)
                    &&& r.0.phase == (SessionPhase::MintFetch { failures: 0 })
                    &&& r.0.mint_text@ == mint@
                    &&& r.0.wallet_text@ == wallet_account@
                    &&& r.0.mint@ == spec_parsed_address(mint@)->0
                    &&& task_views(r.0.tasks@) == spec_session_tasks(
                        opt_list(pump_pools),
                        opt_list(raydium_pools),
                    )
                    &&& r.0.aggregate is None
                })
            }),
    {
        if self.config.enable_caching {
            let mint_key: String = mint.to_owned();
            let wallet_key: String = wallet_account.to_owned();
            match self.cache.get(&mint_key, &wallet_key, self.config.cache_ttl_seconds, now) {
                Some(data) => {
                    let session = FetchSession {
                        mint_text: mint_key,
                        wallet_text: wallet_key,
                        mint: Address::zero(),
                        tasks: Vec::new(),
                        aggregate: None,
                        pending: Vec::new(),
                        phase: SessionPhase::Finished,
                    };
                    return (session, FetchStep::Done { data });
                },
                None => {
                    // fall through to a fresh fetch
                },
            }
        }
        let mint_address = match parse_address(mint) {
            Some(a) => a,
            None => {
                let session = FetchSession {
                    mint_text: mint.to_owned(),
                    wallet_text: wallet_account.to_owned(),
                    mint: Address::zero(),
                    tasks: Vec::new(),
                    aggregate: None,
                    pending: Vec::new(),
                    phase: SessionPhase::Finished,
                };
                return (
                    session,
                    FetchStep::Failed {
                        error: BotError::InvalidAddress { address: mint.to_owned() },
                    },
                );
            },
        };

        let mut dex_registry = DexRegistry::new();
        dex_registry.register(DexAdapter::Pump(PumpDex::new()));
        dex_registry.register(DexAdapter::Raydium(RaydiumDex::new()));
        proof {
            reveal_strlit("pump");
            reveal_strlit("raydium");
            assert("pump"@.len() == 4);
            assert("raydium"@.len() == 7);
        }

        let mut tasks: Vec<ExchangeTask> = Vec::new();
        match pump_pools {
            Some(list) => {
                match dex_registry.get("pump") {
                    Some(adapter) => {
                        tasks.push(
                            ExchangeTask { adapter: *adapter, addresses: clone_pool_list(list) },
                        );
                    },
                    None => {
                        proof {
                            assert(false);
                        }
                    },
                }
            },
            None => {
                // this exchange is not configured for the call
            },
        }
        match raydium_pools {
            Some(list) => {
                match dex_registry.get("raydium") {
                    Some(adapter) => {
                        tasks.push(
                            ExchangeTask { adapter: *adapter, addresses: clone_pool_list(list) },
                        );
                    },
                    None => {
                        proof {
                            assert(false);
                        }
                    },
                }
            },
            None => {
                // this exchange is not configured for the call
            },
        }
        proof {
            assert(task_views(tasks@) =~= spec_session_tasks(
                opt_list(pump_pools),
                opt_list(raydium_pools),
            ));
        }

        let session = FetchSession {
            mint_text: mint.to_owned(),
            wallet_text: wallet_account.to_owned(),
            mint: mint_address,
            tasks,
            aggregate: None,
            pending: Vec::new(),
            phase: SessionPhase::MintFetch { failures: 0 },
        };
        (session, FetchStep::ReadAccount { address: mint_address })
    }

    /// Feeds one event into a session and yields the next step. This is
    /// the orchestration state machine: retrying the mint read with a
    /// delay between attempts, resolving the token program, fetching each
    /// exchange's pools in turn with per-pool failures skipped, and
    /// writing the cache on completion.
    #[verifier::rlimit(100)]
    pub fn pool_data_step(&mut self, session: &mut FetchSession, event: FetchEvent, now: u64) -> (r:
        FetchStep)
        requires
            old(session).inv(),
            match old(session).phase {
                SessionPhase::MintFetch { .. } => event matches FetchEvent::AccountRead(_)
                    || event matches FetchEvent::ReadFailed { .. },
                SessionPhase::RetryWait { .. } => event matches FetchEvent::Slept,
                SessionPhase::Exchanges { .. } => event matches FetchEvent::PoolAccountsRead {
                    results,
                } && results@.len() == old(session).pending@.len(),
                SessionPhase::Finished => false,
            },
        ensures
            final(session).inv(),
            final(self).config == old(self).config,
            (old(session).phase is MintFetch && event is ReadFailed) ==> ({
                let failures = old(session).phase->MintFetch_failures;
                let message = event->ReadFailed_message;
                &&& (failures + 1 < old(self).config.max_retries ==> {
                    &&& (r matches FetchStep::Sleep { ms } && ms == old(self).config.retry_delay_ms)
                    &&& final(session).phase == (SessionPhase::RetryWait {
                        failures: (failures + 1) as u32,
                    })
                    &&& *final(self) == *old(self)
                    &&& final(session).mint == old(session).mint
                    &&& final(session).mint_text@ == old(session).mint_text@
                    &&& final(session).wallet_text@ == old(session).wallet_text@
                    &&& final(session).tasks@ == old(session).tasks@
                })
                &&& (failures + 1 >= old(self).config.max_retries ==> {
                    &&& (r matches FetchStep::Failed { error } && error matches
                        BotError::RpcFailure { address, message: last } && address@ == old(
                        session,
                    ).mint_text@ && last@ == message@)
                    &&& final(session).phase == SessionPhase::Finished
                    &&& *final(self) == *old(self)
                })
            }),
            (old(session).phase is RetryWait && event is Slept) ==> {
                &&& (r matches FetchStep::ReadAccount { address } && address == old(session).mint)
                &&& final(session).phase == (SessionPhase::MintFetch {
                    failures: old(session).phase->RetryWait_failures,
                })
                &&& *final(self) == *old(self)
                &&& final(session).mint == old(session).mint
                &&& final(session).mint_text@ == old(session).mint_text@
                &&& final(session).wallet_text@ == old(session).wallet_text@
                &&& final(session).tasks@ == old(session).tasks@
            },
            (old(session).phase is MintFetch && event is AccountRead) ==> ({
                let account = event->AccountRead_0;
                let owner_ok = account.owner@ == spec_token_program() || account.owner@
                    == spec_token_2022_program();
                let wallet_ok = spec_parsed_address(old(session).wallet_text@) is Some;
                &&& (!owner_ok ==> {
                    &&& (r matches FetchStep::Failed { error } && error matches
                        BotError::UnknownTokenProgram { mint } && mint@ == old(session).mint_text@)
                    &&& final(session).phase == SessionPhase::Finished
                    &&& *final(self) == *old(self)
                })
                &&& (owner_ok && !wallet_ok ==> {
                    &&& (r matches FetchStep::Failed { error } && error matches
                        BotError::InvalidAddress { address } && address@ == old(
                        session,
                    ).wallet_text@)
                    &&& final(session).phase == SessionPhase::Finished
                    &&& *final(self) == *old(self)
                })
                &&& (owner_ok && wallet_ok ==> step_advanced(
                    *old(self),
                    *final(self),
                    old(session).mint_text@,
                    old(session).wallet_text@,
                    *final(session),
                    r,
                    old(session).tasks@,
                    0,
                    now,
                    old(session).mint@,
                    spec_parsed_address(old(session).wallet_text@)->0,
                    account.owner@,
                    Seq::empty(),
                    Seq::empty(),
                ))
            }),
            (old(session).phase is Exchanges && event is PoolAccountsRead) ==> ({
                let task = old(session).phase->Exchanges_task;
                let results = event->PoolAccountsRead_results;
                let a0 = old(session).aggregate->0;
                let adapter = old(session).tasks@[task as int].adapter;
                let pump_after = match adapter {
                    DexAdapter::Pump(_) => pump_views(a0.pump_pools@) + spec_pump_records(
                        spec_pump_infos(old(session).pending@, results@, old(session).mint@),
                    ),
                    DexAdapter::Raydium(_) => pump_views(a0.pump_pools@),
                };
                let raydium_after = match adapter {
                    DexAdapter::Pump(_) => raydium_views(a0.raydium_pools@),
                    DexAdapter::Raydium(_) => raydium_views(a0.raydium_pools@)
                        + spec_raydium_records(
                        spec_raydium_infos(old(session).pending@, results@, old(session).mint@),
                    ),
                };
                step_advanced(
                    *old(self),
                    *final(self),
                    old(session).mint_text@,
                    old(session).wallet_text@,
                    *final(session),
                    r,
                    old(session).tasks@,
                    task + 1,
                    now,
                    a0.mint@,
                    a0.wallet@,
                    a0.token_program@,
                    pump_after,
                    raydium_after,
                )
            }),
    {
        let phase = session.phase;
        match phase {
            SessionPhase::MintFetch { failures } => {
                match &event {
                    FetchEvent::ReadFailed { message } => {
                        if failures + 1 < self.config.max_retries {
                            session.phase = SessionPhase::RetryWait { failures: failures + 1 };
                            FetchStep::Sleep { ms: self.config.retry_delay_ms }
                        } else {
                            session.phase = SessionPhase::Finished;
                            FetchStep::Failed {
                                error: BotError::RpcFailure {
                                    address: session.mint_text.clone(),
                                    message: message.clone(),
                                },
                            }
                        }
                    },
                    FetchEvent::AccountRead(account) => {
                        let token_program = match self.determine_token_program(
                            account,
                            session.mint_text.as_str(),
                        ) {
                            Ok(p) => p,
                            Err(error) => {
                                session.phase = SessionPhase::Finished;
                                return FetchStep::Failed { error };
                            },
                        };
                        let aggregate = match MintPoolData::new(
                            session.mint_text.as_str(),
                            session.wallet_text.as_str(),
                            token_program,
                        ) {
                            Ok(a) => a,
                            Err(error) => {
                                session.phase = SessionPhase::Finished;
                                return FetchStep::Failed { error };
                            },
                        };
                        session.aggregate = Some(aggregate);
                        proof {
                            assert(pump_views((session.aggregate->0).pump_pools@)
                                =~= Seq::<PumpPoolV>::empty());
                            assert(raydium_views((session.aggregate->0).raydium_pools@)
                                =~= Seq::<RaydiumPoolV>::empty());
                        }
                        self.advance(session, 0, now)
                    },
                    _ => {
                        // unreachable: the contract admits no other event
                        // in this phase
                        proof {
                            assert(false);
                        }
                        FetchStep::Failed { error: BotError::Config { message: String::new() } }
                    },
                }
            },
            SessionPhase::RetryWait { failures } => {
                match &event {
                    FetchEvent::Slept => {
                        session.phase = SessionPhase::MintFetch { failures };
                        FetchStep::ReadAccount { address: session.mint }
                    },
                    _ => {
                        // unreachable: the contract admits no other event
                        // in this phase
                        proof {
                            assert(false);
                        }
                        FetchStep::Failed { error: BotError::Config { message: String::new() } }
                    },
                }
            },
            SessionPhase::Exchanges { task } => {
                match &event {
                    FetchEvent::PoolAccountsRead { results } => {
                        let task_count = session.tasks.len();
                        let adapter = session.tasks[task].adapter;
                        let mint_address = session.mint;
                        let pools = match adapter {
                            DexAdapter::Pump(d) => d.fetch_pools(
                                &session.pending,
                                results,
                                &mint_address,
                            ),
                            DexAdapter::Raydium(d) => d.fetch_pools(
                                &session.pending,
                                results,
                                &mint_address,
                            ),
                        };
                        let name = adapter.name();
                        match &mut session.aggregate {
                            Some(aggregate) => {
                                let converted = self.convert_and_add_pools(
                                    aggregate,
                                    name.as_str(),
                                    pools,
                                );
                                proof {
                                    reveal_strlit("pump");
                                    reveal_strlit("raydium");
                                    assert("pump"@.len() == 4);
                                    assert("raydium"@.len() == 7);
                                }
                                match converted {
                                    Ok(()) => {
                                        // nothing more: per-pool failures were skipped
                                    },
                                    Err(_) => {
                                        // the conversion never fails
                                    },
                                }
                            },
                            None => {
                                // unreachable: this phase carries an aggregate
                                proof {
                                    assert(false);
                                }
                            },
                        }
                        self.advance(session, task + 1, now)
                    },
                    _ => {
                        // unreachable: the contract admits no other event
                        // in this phase
                        proof {
                            assert(false);
                        }
                        FetchStep::Failed { error: BotError::Config { message: String::new() } }
                    },
                }
            },
            SessionPhase::Finished => {
                // unreachable: a finished session takes no further event
                proof {
                    assert(false);
                }
                FetchStep::Failed { error: BotError::Config { message: String::new() } }
            },
        }
    }
}

/// An owned copy of a caller's pool address list.
fn clone_pool_list(list: &Vec<String>) -> (r: Vec<String>)
    ensures
        r@ == list@,
{
    let r = list.clone();
    proof {
        assert forall|i: int| 0 <= i < r@.len() implies r@[i] == list@[i] by {
        }
        assert(r@ =~= list@);
    }
    r
}

} // verus!
