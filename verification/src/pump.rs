use vstd::prelude::*;
use crate::address::Address;
use crate::address::derive_associated_token_address;
use crate::address::pump_fee_wallet;
use crate::address::pump_program_id;
use crate::address::sol_mint;
use crate::address::spec_derived_ata;
use crate::address::spec_native_mint;
use crate::address::spec_pump_fee_wallet;
use crate::address::spec_pump_program;
use crate::dex::read_address_field;
use crate::dex::spec_field;
use crate::dex::Dex;
use crate::dex::PoolAccountResult;
use crate::error::BotError;
use crate::pools::PoolInfo;
use crate::pools::PoolInfoV;
use crate::pools::pool_views;

verus! {

/// Minimum length of a pump pool account: the tag plus every field the
/// decoder reads.
pub const PUMP_MIN_LEN: usize = 243;

/// Byte offsets of the fields read out of a pump pool account. The layout
/// is: an 8-byte tag, a bump byte, a 2-byte index, the creator, then the
/// base mint, quote mint, LP mint, the two vault accounts, the LP supply
/// and the coin creator (which is the creator-vault authority).
pub const PUMP_BASE_MINT_OFFSET: usize = 43;

pub const PUMP_QUOTE_MINT_OFFSET: usize = 75;

pub const PUMP_BASE_ACCOUNT_OFFSET: usize = 139;

pub const PUMP_QUOTE_ACCOUNT_OFFSET: usize = 171;

pub const PUMP_COIN_CREATOR_OFFSET: usize = 211;

/// The 8-byte tag that opens every pump pool account.
pub open spec fn spec_pump_tag() -> Seq<u8> {
    seq![241u8, 154, 109, 4, 17, 177, 109, 188]
}

/// Whether the raw bytes pass validation: long enough for every field, and
/// opening with the pool tag.
pub open spec fn pump_layout_ok(data: Seq<u8>) -> bool {
    data.len() >= PUMP_MIN_LEN && data.subrange(0, 8) == spec_pump_tag()
}

pub open spec fn pump_base_mint(data: Seq<u8>) -> Seq<u8> {
    spec_field(data, PUMP_BASE_MINT_OFFSET as int)
}

pub open spec fn pump_quote_mint(data: Seq<u8>) -> Seq<u8> {
    spec_field(data, PUMP_QUOTE_MINT_OFFSET as int)
}

pub open spec fn pump_base_account(data: Seq<u8>) -> Seq<u8> {
    spec_field(data, PUMP_BASE_ACCOUNT_OFFSET as int)
}

pub open spec fn pump_quote_account(data: Seq<u8>) -> Seq<u8> {
    spec_field(data, PUMP_QUOTE_ACCOUNT_OFFSET as int)
}

pub open spec fn pump_coin_creator(data: Seq<u8>) -> Seq<u8> {
    spec_field(data, PUMP_COIN_CREATOR_OFFSET as int)
}

/// The vault holding the queried asset: the side opposite the native one,
/// or the base side when neither side is the native mint.
pub open spec fn pump_token_vault(data: Seq<u8>) -> Seq<u8> {
    if spec_native_mint() == pump_base_mint(data) {
        pump_quote_account(data)
    } else if spec_native_mint() == pump_quote_mint(data) {
        pump_base_account(data)
    } else {
        pump_base_account(data)
    }
}

/// The vault of the native-asset side, paired with `pump_token_vault`; the
/// quote side when neither side is the native mint.
pub open spec fn pump_base_vault(data: Seq<u8>) -> Seq<u8> {
    if spec_native_mint() == pump_base_mint(data) {
        pump_base_account(data)
    } else if spec_native_mint() == pump_quote_mint(data) {
        pump_quote_account(data)
    } else {
        pump_quote_account(data)
    }
}

/// The side matching the queried mint, whatever the on-chain ordering.
pub open spec fn pump_token_mint(data: Seq<u8>, queried: Seq<u8>) -> Seq<u8> {
    if queried == pump_base_mint(data) {
        pump_base_mint(data)
    } else {
        pump_quote_mint(data)
    }
}

/// The side paired with `pump_token_mint`.
pub open spec fn pump_paired_mint(data: Seq<u8>, queried: Seq<u8>) -> Seq<u8> {
    if queried == pump_base_mint(data) {
        pump_quote_mint(data)
    } else {
        pump_base_mint(data)
    }
}

/// What decoding a valid pump pool account yields, as a view.
pub open spec fn spec_pump_pool_info(pool: Seq<u8>, data: Seq<u8>, queried: Seq<u8>) -> PoolInfoV {
    PoolInfoV {
        pool_address: pool,
        token_mint: pump_token_mint(data, queried),
        base_mint: pump_paired_mint(data, queried),
        token_vault: pump_token_vault(data),
        base_vault: pump_base_vault(data),
        fee_wallet: Some(spec_derived_ata(spec_pump_fee_wallet(), pump_quote_mint(data))),
        additional_accounts: seq![
            (
                "coin_creator_vault_ata"@,
                spec_derived_ata(pump_coin_creator(data), pump_quote_mint(data)),
            ),
            ("coin_creator_vault_authority"@, pump_coin_creator(data)),
        ],
    }
}

/// Whatever the on-chain ordering of the two sides, the decoded
/// `token_mint` is the queried mint whenever the queried mint is one of
/// them, `base_mint` is the other side, and the vault holding the side
/// opposite the native asset is the `token_vault`.
pub proof fn lemma_pump_orientation(data: Seq<u8>, queried: Seq<u8>)
    requires
        queried == pump_base_mint(data) || queried == pump_quote_mint(data),
    ensures
        pump_token_mint(data, queried) == queried,
        queried == pump_base_mint(data) ==> pump_paired_mint(data, queried) == pump_quote_mint(
            data,
        ),
        queried != pump_base_mint(data) ==> pump_paired_mint(data, queried) == pump_base_mint(
            data,
        ),
        spec_native_mint() == pump_base_mint(data) ==> (pump_token_vault(data)
            == pump_quote_account(data) && pump_base_vault(data) == pump_base_account(data)),
        spec_native_mint() != pump_base_mint(data) && spec_native_mint() == pump_quote_mint(data)
            ==> (pump_token_vault(data) == pump_base_account(data) && pump_base_vault(data)
            == pump_quote_account(data)),
{
}

/// What a whole batch of reads decodes to: one entry per read that came
/// back owned by the pump program with a valid layout, in order; every
/// other read contributes nothing.
pub open spec fn spec_pump_infos(
    addrs: Seq<Address>,
    results: Seq<PoolAccountResult>,
    queried: Seq<u8>,
) -> Seq<PoolInfoV>
    decreases results.len(),
{
    if results.len() == 0 {
        Seq::empty()
    } else {
        spec_pump_infos(addrs.drop_last(), results.drop_last(), queried) + match results.last() {
            PoolAccountResult::Read(a) => {
                if a.owner@ == spec_pump_program() && pump_layout_ok(a.data@) {
                    seq![spec_pump_pool_info(addrs.last()@, a.data@, queried)]
                } else {
                    Seq::empty()
                }
            },
            PoolAccountResult::Failed(_) => Seq::empty(),
        }
    }
}

/// The "pump" exchange adapter.
#[derive(Clone, Copy)]
pub struct PumpDex {}

impl PumpDex {
    pub fn new() -> (r: PumpDex) {
        PumpDex {  }
    }

    /// Decodes one raw pool account. Rejects an account that the pump
    /// program does not own, validates the layout, orients the mints and
    /// vaults to the queried mint, and derives the fee wallet and the
    /// creator-vault addresses from the decoded fields.
    pub fn decode_pool(
        &self,
        pool_address: &Address,
        owner: &Address,
        data: &Vec<u8>,
        token_mint: &Address,
    ) -> (r: Result<PoolInfo, BotError>)
        ensures
            r is Ok <==> (owner@ == spec_pump_program() && pump_layout_ok(data@)),
            r matches Ok(p) ==> p@ == spec_pump_pool_info(pool_address@, data@, token_mint@),
            owner@ != spec_pump_program() ==> (r matches Err(e) && e matches
                BotError::PoolOwnershipMismatch { address } && address@ == pool_address@),
            owner@ == spec_pump_program() && !pump_layout_ok(data@) ==> (r matches Err(e)
                && e matches BotError::PoolParse { address } && address@ == pool_address@),
    {
        if !(*owner == self.program_id()) {
            return Err(BotError::PoolOwnershipMismatch { address: *pool_address });
        }
        if data.len() < PUMP_MIN_LEN {
            return Err(BotError::PoolParse { address: *pool_address });
        }
        let tag: [u8; 8] = [241, 154, 109, 4, 17, 177, 109, 188];
        let mut i: usize = 0;
        while i < 8
            invariant
                owner@ == spec_pump_program(),
                data@.len() >= PUMP_MIN_LEN,
                0 <= i <= 8,
                tag@ == spec_pump_tag(),
                forall|j: int| 0 <= j < i ==> data@[j] == spec_pump_tag()[j],
            decreases 8 - i,
        {
            if data[i] != tag[i] {
                return Err(BotError::PoolParse { address: *pool_address });
            }
            i += 1;
        }
        proof {
            assert(data@.subrange(0, 8) =~= spec_pump_tag());
        }
        let base_mint = read_address_field(data, PUMP_BASE_MINT_OFFSET);
        let quote_mint = read_address_field(data, PUMP_QUOTE_MINT_OFFSET);
        let base_account = read_address_field(data, PUMP_BASE_ACCOUNT_OFFSET);
        let quote_account = read_address_field(data, PUMP_QUOTE_ACCOUNT_OFFSET);
        let coin_creator = read_address_field(data, PUMP_COIN_CREATOR_OFFSET);

        let native = sol_mint();
        let (token_vault, base_vault) = if native == base_mint {
            (quote_account, base_account)
        } else if native == quote_mint {
            (base_account, quote_account)
        } else {
            (base_account, quote_account)
        };

        let fee_token_wallet = derive_associated_token_address(&pump_fee_wallet(), &quote_mint);
        let coin_creator_vault_ata = derive_associated_token_address(&coin_creator, &quote_mint);

        let (token_mint_final, paired_mint) = if *token_mint == base_mint {
            (base_mint, quote_mint)
        } else {
            (quote_mint, base_mint)
        };

        let mut additional_accounts: Vec<(String, Address)> = Vec::new();
        additional_accounts.push(("coin_creator_vault_ata".to_owned(), coin_creator_vault_ata));
        additional_accounts.push(("coin_creator_vault_authority".to_owned(), coin_creator));

        let info = PoolInfo {
            pool_address: *pool_address,
            token_mint: token_mint_final,
            base_mint: paired_mint,
            token_vault,
            base_vault,
            fee_wallet: Some(fee_token_wallet),
            additional_accounts,
        };
        proof {
            assert(info@.additional_accounts =~= spec_pump_pool_info(
                pool_address@,
                data@,
                token_mint@,
            ).additional_accounts);
            assert(info@ =~~= spec_pump_pool_info(pool_address@, data@, token_mint@));
        }
        Ok(info)
    }

    /// Decodes a batch of pool reads, one read per parsed address: a read
    /// that failed, an account the pump program does not own, or an
    /// invalid layout is skipped, never fatal to the batch.
    pub fn fetch_pools(
        &self,
        pool_addresses: &Vec<Address>,
        results: &Vec<PoolAccountResult>,
        token_mint: &Address,
    ) -> (r: Vec<PoolInfo>)
        requires
            pool_addresses@.len() == results@.len(),
        ensures
            pool_views(r@) == spec_pump_infos(
                pool_addresses@,
                results@,
                token_mint@,
            ),
    {
        let n = results.len();
        let mut out: Vec<PoolInfo> = Vec::new();
        let mut i: usize = 0;
        while i < n
            invariant
                n == results@.len(),
                pool_addresses@.len() == results@.len(),
                0 <= i <= n,
                pool_views(out@) == spec_pump_infos(
                    pool_addresses@.take(i as int),
                    results@.take(i as int),
                    token_mint@,
                ),
            decreases n - i,
        {
            let ghost prefix_a = pool_addresses@.take(i as int);
            let ghost prefix_r = results@.take(i as int);
            proof {
                assert(pool_addresses@.take(i + 1).drop_last() =~= prefix_a);
                assert(results@.take(i + 1).drop_last() =~= prefix_r);
                assert(results@.take(i + 1).last() == results@[i as int]);
                assert(pool_addresses@.take(i + 1).last() == pool_addresses@[i as int]);
            }
            match &results[i] {
                PoolAccountResult::Read(account) => {
                    match self.decode_pool(
                        &pool_addresses[i],
                        &account.owner,
                        &account.data,
                        token_mint,
                    ) {
                        Ok(info) => {
                            let ghost before = out@;
                            out.push(info);
                            proof {
                                assert(pool_views(out@) =~= pool_views(before).push(info@));
                            }
                        },
                        Err(_) => {
                            // this pool is skipped; the batch goes on
                        },
                    }
                },
                PoolAccountResult::Failed(_) => {
                    // the read itself failed; the pool is skipped
                },
            }
            i += 1;
        }
        proof {
            assert(pool_addresses@.take(n as int) =~= pool_addresses@);
            assert(results@.take(n as int) =~= results@);
        }
        out
    }
}

impl Dex for PumpDex {
    open spec fn spec_name(&self) -> Seq<char> {
        "pump"@
    }

    open spec fn spec_program_id(&self) -> Seq<u8> {
        spec_pump_program()
    }

    fn name(&self) -> (r: String) {
        "pump".to_owned()
    }

    fn program_id(&self) -> (r: Address) {
        pump_program_id()
    }

    fn get_swap_instruction_data(&self, pool_info: &PoolInfo, amount_in: u64, minimum_out: u64) -> (
        r: Result<Vec<u8>, BotError>) {
        // swap encoding for this exchange is not implemented yet
        Ok(Vec::new())
    }
}

} // verus!
