use vstd::prelude::*;
use crate::address::Address;
use crate::address::raydium_program_id;
use crate::address::sol_mint;
use crate::address::spec_native_mint;
use crate::address::spec_raydium_program;
use crate::dex::read_address_field;
use crate::dex::spec_field;
use crate::dex::Dex;
use crate::dex::PoolAccountResult;
use crate::error::BotError;
use crate::pools::PoolInfo;
use crate::pools::PoolInfoV;
use crate::pools::pool_views;

verus! {

/// Minimum length of a raydium pool account: enough for every field the
/// decoder reads. This layout has no leading tag; the length check is the
/// only validation available.
pub const RAYDIUM_MIN_LEN: usize = 464;

/// Byte offsets of the fields read out of a raydium pool account: the two
/// vault accounts, then the two mints.
pub const RAYDIUM_COIN_VAULT_OFFSET: usize = 336;

pub const RAYDIUM_PC_VAULT_OFFSET: usize = 368;

pub const RAYDIUM_COIN_MINT_OFFSET: usize = 400;

pub const RAYDIUM_PC_MINT_OFFSET: usize = 432;

/// Whether the raw bytes pass validation: long enough for every field.
pub open spec fn raydium_layout_ok(data: Seq<u8>) -> bool {
    data.len() >= RAYDIUM_MIN_LEN
}

pub open spec fn raydium_coin_vault(data: Seq<u8>) -> Seq<u8> {
    spec_field(data, RAYDIUM_COIN_VAULT_OFFSET as int)
}

pub open spec fn raydium_pc_vault(data: Seq<u8>) -> Seq<u8> {
    spec_field(data, RAYDIUM_PC_VAULT_OFFSET as int)
}

pub open spec fn raydium_coin_mint(data: Seq<u8>) -> Seq<u8> {
    spec_field(data, RAYDIUM_COIN_MINT_OFFSET as int)
}

pub open spec fn raydium_pc_mint(data: Seq<u8>) -> Seq<u8> {
    spec_field(data, RAYDIUM_PC_MINT_OFFSET as int)
}

/// The vault holding the queried asset: the side opposite the native one,
/// or the coin side when neither side is the native mint.
pub open spec fn raydium_token_vault(data: Seq<u8>) -> Seq<u8> {
    if spec_native_mint() == raydium_coin_mint(data) {
        raydium_pc_vault(data)
    } else if spec_native_mint() == raydium_pc_mint(data) {
        raydium_coin_vault(data)
    } else {
        raydium_coin_vault(data)
    }
}

/// The vault of the native-asset side, paired with `raydium_token_vault`;
/// the pc side when neither side is the native mint.
pub open spec fn raydium_base_vault(data: Seq<u8>) -> Seq<u8> {
    if spec_native_mint() == raydium_coin_mint(data) {
        raydium_coin_vault(data)
    } else if spec_native_mint() == raydium_pc_mint(data) {
        raydium_pc_vault(data)
    } else {
        raydium_pc_vault(data)
    }
}

/// The side matching the queried mint, whatever the on-chain ordering.
pub open spec fn raydium_token_mint(data: Seq<u8>, queried: Seq<u8>) -> Seq<u8> {
    if queried == raydium_coin_mint(data) {
        raydium_coin_mint(data)
    } else {
        raydium_pc_mint(data)
    }
}

/// The side paired with `raydium_token_mint`.
pub open spec fn raydium_paired_mint(data: Seq<u8>, queried: Seq<u8>) -> Seq<u8> {
    if queried == raydium_coin_mint(data) {
        raydium_pc_mint(data)
    } else {
        raydium_coin_mint(data)
    }
}

/// What decoding a valid raydium pool account yields, as a view. This
/// exchange has no separate fee wallet and needs no auxiliary addresses.
pub open spec fn spec_raydium_pool_info(pool: Seq<u8>, data: Seq<u8>, queried: Seq<u8>) -> PoolInfoV {
    PoolInfoV {
        pool_address: pool,
        token_mint: raydium_token_mint(data, queried),
        base_mint: raydium_paired_mint(data, queried),
        token_vault: raydium_token_vault(data),
        base_vault: raydium_base_vault(data),
        fee_wallet: None,
        additional_accounts: Seq::empty(),
    }
}

/// Whatever the on-chain ordering of the two sides, the decoded
/// `token_mint` is the queried mint whenever the queried mint is one of
/// them, `base_mint` is the other side, and the vault holding the side
/// opposite the native asset is the `token_vault`.
pub proof fn lemma_raydium_orientation(data: Seq<u8>, queried: Seq<u8>)
    requires
        queried == raydium_coin_mint(data) || queried == raydium_pc_mint(data),
    ensures
        raydium_token_mint(data, queried) == queried,
        queried == raydium_coin_mint(data) ==> raydium_paired_mint(data, queried)
            == raydium_pc_mint(data),
        queried != raydium_coin_mint(data) ==> raydium_paired_mint(data, queried)
            == raydium_coin_mint(data),
        spec_native_mint() == raydium_coin_mint(data) ==> (raydium_token_vault(data)
            == raydium_pc_vault(data) && raydium_base_vault(data) == raydium_coin_vault(data)),
        spec_native_mint() != raydium_coin_mint(data) && spec_native_mint() == raydium_pc_mint(
            data,
        ) ==> (raydium_token_vault(data) == raydium_coin_vault(data) && raydium_base_vault(data)
            == raydium_pc_vault(data)),
{
}

/// What a whole batch of reads decodes to: one entry per read that came
/// back owned by the raydium program with a valid layout, in order; every
/// other read contributes nothing.
pub open spec fn spec_raydium_infos(
    addrs: Seq<Address>,
    results: Seq<PoolAccountResult>,
    queried: Seq<u8>,
) -> Seq<PoolInfoV>
    decreases results.len(),
{
    if results.len() == 0 {
        Seq::empty()
    } else {
        spec_raydium_infos(addrs.drop_last(), results.drop_last(), queried) + match results.last() {
            PoolAccountResult::Read(a) => {
                if a.owner@ == spec_raydium_program() && raydium_layout_ok(a.data@) {
                    seq![spec_raydium_pool_info(addrs.last()@, a.data@, queried)]
                } else {
                    Seq::empty()
                }
            },
            PoolAccountResult::Failed(_) => Seq::empty(),
        }
    }
}

/// The "raydium" exchange adapter.
#[derive(Clone, Copy)]
pub struct RaydiumDex {}

impl RaydiumDex {
    pub fn new() -> (r: RaydiumDex) {
        RaydiumDex {  }
    }

    /// Decodes one raw pool account. Rejects an account that the raydium
    /// program does not own, validates the length, and orients the mints
    /// and vaults to the queried mint.
    pub fn decode_pool(
        &self,
        pool_address: &Address,
        owner: &Address,
        data: &Vec<u8>,
        token_mint: &Address,
    ) -> (r: Result<PoolInfo, BotError>)
        ensures
            r is Ok <==> (owner@ == spec_raydium_program() && raydium_layout_ok(data@)),
            r matches Ok(p) ==> p@ == spec_raydium_pool_info(pool_address@, data@, token_mint@),
            owner@ != spec_raydium_program() ==> (r matches Err(e) && e matches
                BotError::PoolOwnershipMismatch { address } && address@ == pool_address@),
            owner@ == spec_raydium_program() && !raydium_layout_ok(data@) ==> (r matches Err(e)
                && e matches BotError::PoolParse { address } && address@ == pool_address@),
    {
        if !(*owner == self.program_id()) {
            return Err(BotError::PoolOwnershipMismatch { address: *pool_address });
        }
        if data.len() < RAYDIUM_MIN_LEN {
            return Err(BotError::PoolParse { address: *pool_address });
        }
        let coin_vault = read_address_field(data, RAYDIUM_COIN_VAULT_OFFSET);
        let pc_vault = read_address_field(data, RAYDIUM_PC_VAULT_OFFSET);
        let coin_mint = read_address_field(data, RAYDIUM_COIN_MINT_OFFSET);
        let pc_mint = read_address_field(data, RAYDIUM_PC_MINT_OFFSET);

        let native = sol_mint();
        let (token_vault, base_vault) = if native == coin_mint {
            (pc_vault, coin_vault)
        } else if native == pc_mint {
            (coin_vault, pc_vault)
        } else {
            (coin_vault, pc_vault)
        };

        let (token_mint_final, paired_mint) = if *token_mint == coin_mint {
            (coin_mint, pc_mint)
        } else {
            (pc_mint, coin_mint)
        };

        let info = PoolInfo {
            pool_address: *pool_address,
            token_mint: token_mint_final,
            base_mint: paired_mint,
            token_vault,
            base_vault,
            fee_wallet: None,
            additional_accounts: Vec::new(),
        };
        proof {
            assert(info@.additional_accounts =~= spec_raydium_pool_info(
                pool_address@,
                data@,
                token_mint@,
            ).additional_accounts);
            assert(info@ =~~= spec_raydium_pool_info(pool_address@, data@, token_mint@));
        }
        Ok(info)
    }

    /// Decodes a batch of pool reads, one read per parsed address: a read
    /// that failed, an account the raydium program does not own, or an
    /// invalid layout is skipped, never fatal to the batch.
    pub fn fetch_pools(
        &self,
        pool_addresses: &Vec<Address>,
        results: &Vec<PoolAccountResult>,
        token_mint: &Address,
    ) -> (r: Vec<PoolInfo>)
        requires
            pool_addresses@.len() == results@.len(),
        ensures
            pool_views(r@) == spec_raydium_infos(
                pool_addresses@,
                results@,
                token_mint@,
            ),
    {
        let n = results.len();
        let mut out: Vec<PoolInfo> = Vec::new();
        let mut i: usize = 0;
        while i < n
            invariant
                n == results@.len(),
                pool_addresses@.len() == results@.len(),
                0 <= i <= n,
                pool_views(out@) == spec_raydium_infos(
                    pool_addresses@.take(i as int),
                    results@.take(i as int),
                    token_mint@,
                ),
            decreases n - i,
        {
            let ghost prefix_a = pool_addresses@.take(i as int);
            let ghost prefix_r = results@.take(i as int);
            proof {
                assert(pool_addresses@.take(i + 1).drop_last() =~= prefix_a);
                assert(results@.take(i + 1).drop_last() =~= prefix_r);
                assert(results@.take(i + 1).last() == results@[i as int]);
                assert(pool_addresses@.take(i + 1).last() == pool_addresses@[i as int]);
            }
            match &results[i] {
                PoolAccountResult::Read(account) => {
                    match self.decode_pool(
                        &pool_addresses[i],
                        &account.owner,
                        &account.data,
                        token_mint,
                    ) {
                        Ok(info) => {
                            let ghost before = out@;
                            out.push(info);
                            proof {
                                assert(pool_views(out@) =~= pool_views(before).push(info@));
                            }
                        },
                        Err(_) => {
                            // this pool is skipped; the batch goes on
                        },
                    }
                },
                PoolAccountResult::Failed(_) => {
                    // the read itself failed; the pool is skipped
                },
            }
            i += 1;
        }
        proof {
            assert(pool_addresses@.take(n as int) =~= pool_addresses@);
            assert(results@.take(n as int) =~= results@);
        }
        out
    }
}

impl Dex for RaydiumDex {
    open spec fn spec_name(&self) -> Seq<char> {
        "raydium"@
    }

    open spec fn spec_program_id(&self) -> Seq<u8> {
        spec_raydium_program()
    }

    fn name(&self) -> (r: String) {
        "raydium".to_owned()
    }

    fn program_id(&self) -> (r: Address) {
        raydium_program_id()
    }

    fn get_swap_instruction_data(&self, pool_info: &PoolInfo, amount_in: u64, minimum_out: u64) -> (
        r: Result<Vec<u8>, BotError>) {
        // swap encoding for this exchange is not implemented yet
        Ok(Vec::new())
    }
}

} // verus!
