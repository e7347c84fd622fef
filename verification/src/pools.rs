use vstd::prelude::*;
use crate::address::Address;
use crate::error::BotError;
use crate::address::parse_address;
use crate::address::spec_parsed_address;

verus! {

/// What an account read hands back: the owning program and the raw bytes.
/// This is the part of a ledger account that the decoding logic consumes.
#[derive(Debug)]
pub struct AccountData {
    pub owner: Address,
    pub data: Vec<u8>,
}

/// Protocol-agnostic view of one liquidity pool, produced by an exchange
/// adapter. `token_mint` always denotes the side matching the mint the
/// caller asked about, whatever the on-chain ordering was.
#[derive(Debug)]
pub struct PoolInfo {
    pub pool_address: Address,
    pub token_mint: Address,
    pub base_mint: Address,
    pub token_vault: Address,
    pub base_vault: Address,
    pub fee_wallet: Option<Address>,
    pub additional_accounts: Vec<(String, Address)>,
}

/// First value stored under `key`, or `None`: the auxiliary-address mapping
/// of a `PoolInfo` seen as an association list.
pub open spec fn spec_lookup(entries: Seq<(Seq<char>, Seq<u8>)>, key: Seq<char>) -> Option<Seq<u8>>
    decreases entries.len(),
{
    if entries.len() == 0 {
        None
    } else if entries[0].0 == key {
        Some(entries[0].1)
    } else {
        spec_lookup(entries.drop_first(), key)
    }
}

/// The auxiliary mapping of a `PoolInfo` as pairs of views.
pub open spec fn additional_view(entries: Seq<(String, Address)>) -> Seq<(Seq<char>, Seq<u8>)> {
    entries.map_values(|p: (String, Address)| (p.0@, p.1@))
}

/// Looks `key` up in an auxiliary-address list, first match wins.
pub fn lookup_additional(entries: &Vec<(String, Address)>, key: &String) -> (r: Option<Address>)
    ensures
        match r {
            Some(a) => spec_lookup(additional_view(entries@), key@) == Some(a@),
            None => spec_lookup(additional_view(entries@), key@) is None,
        },
{
    let ghost all = additional_view(entries@);
    proof {
        assert(all.skip(0) =~= all);
    }
    let mut i: usize = 0;
    while i < entries.len()
        invariant
            0 <= i <= entries@.len(),
            all == additional_view(entries@),
            all.len() == entries@.len(),
            forall|j: int| 0 <= j < all.len() ==> all[j] == (entries@[j].0@, entries@[j].1@),
            spec_lookup(all, key@) == spec_lookup(all.skip(i as int), key@),
        decreases entries@.len() - i,
    {
        proof {
            assert(all.skip(i as int).len() == all.len() - i);
            assert(all.skip(i as int)[0] == all[i as int]);
        }
        if entries[i].0 == *key {
            return Some(entries[i].1);
        }
        proof {
            assert(all.skip(i as int).drop_first() =~= all.skip(i + 1));
        }
        i += 1;
    }
    proof {
        assert(all.skip(entries@.len() as int).len() == 0);
    }
    None
}

/// The view of a `PoolInfo`: every address as its byte sequence, the
/// auxiliary mapping as pairs of views.
#[verifier::ext_equal]
pub struct PoolInfoV {
    pub pool_address: Seq<u8>,
    pub token_mint: Seq<u8>,
    pub base_mint: Seq<u8>,
    pub token_vault: Seq<u8>,
    pub base_vault: Seq<u8>,
    pub fee_wallet: Option<Seq<u8>>,
    pub additional_accounts: Seq<(Seq<char>, Seq<u8>)>,
}

impl View for PoolInfo {
    type V = PoolInfoV;

    open spec fn view(&self) -> PoolInfoV {
        PoolInfoV {
            pool_address: self.pool_address@,
            token_mint: self.token_mint@,
            base_mint: self.base_mint@,
            token_vault: self.token_vault@,
            base_vault: self.base_vault@,
            fee_wallet: match self.fee_wallet {
                Some(a) => Some(a@),
                None => None,
            },
            additional_accounts: additional_view(self.additional_accounts@),
        }
    }
}

/// One pool of the "pump" exchange in the record shape that downstream trade
/// logic expects.
#[derive(Clone, Copy, Debug)]
pub struct PumpPool {
    pub pool: Address,
    pub token_vault: Address,
    pub sol_vault: Address,
    pub fee_token_wallet: Address,
    pub coin_creator_vault_ata: Address,
    pub coin_creator_vault_authority: Address,
    pub token_mint: Address,
    pub base_mint: Address,
}

/// The view of a `PumpPool`: every address as its byte sequence.
#[verifier::ext_equal]
pub struct PumpPoolV {
    pub pool: Seq<u8>,
    pub token_vault: Seq<u8>,
    pub sol_vault: Seq<u8>,
    pub fee_token_wallet: Seq<u8>,
    pub coin_creator_vault_ata: Seq<u8>,
    pub coin_creator_vault_authority: Seq<u8>,
    pub token_mint: Seq<u8>,
    pub base_mint: Seq<u8>,
}

impl View for PumpPool {
    type V = PumpPoolV;

    open spec fn view(&self) -> PumpPoolV {
        PumpPoolV {
            pool: self.pool@,
            token_vault: self.token_vault@,
            sol_vault: self.sol_vault@,
            fee_token_wallet: self.fee_token_wallet@,
            coin_creator_vault_ata: self.coin_creator_vault_ata@,
            coin_creator_vault_authority: self.coin_creator_vault_authority@,
            token_mint: self.token_mint@,
            base_mint: self.base_mint@,
        }
    }
}

/// One pool of the "raydium" exchange in the record shape that downstream
/// trade logic expects.
#[derive(Clone, Copy, Debug)]
pub struct RaydiumPool {
    pub pool: Address,
    pub token_vault: Address,
    pub sol_vault: Address,
    pub token_mint: Address,
    pub base_mint: Address,
}

/// The view of a `RaydiumPool`: every address as its byte sequence.
#[verifier::ext_equal]
pub struct RaydiumPoolV {
    pub pool: Seq<u8>,
    pub token_vault: Seq<u8>,
    pub sol_vault: Seq<u8>,
    pub token_mint: Seq<u8>,
    pub base_mint: Seq<u8>,
}

impl View for RaydiumPool {
    type V = RaydiumPoolV;

    open spec fn view(&self) -> RaydiumPoolV {
        RaydiumPoolV {
            pool: self.pool@,
            token_vault: self.token_vault@,
            sol_vault: self.sol_vault@,
            token_mint: self.token_mint@,
            base_mint: self.base_mint@,
        }
    }
}

/// The views of a list of decoded pools.
pub open spec fn pool_views(s: Seq<PoolInfo>) -> Seq<PoolInfoV> {
    s.map_values(|p: PoolInfo| p@)
}

/// The views of a list of addresses.
pub open spec fn addr_views(s: Seq<Address>) -> Seq<Seq<u8>> {
    s.map_values(|a: Address| a@)
}

/// The views of a whole pool list.
pub open spec fn pump_views(s: Seq<PumpPool>) -> Seq<PumpPoolV> {
    s.map_values(|p: PumpPool| p@)
}

/// The views of a whole pool list.
pub open spec fn raydium_views(s: Seq<RaydiumPool>) -> Seq<RaydiumPoolV> {
    s.map_values(|p: RaydiumPool| p@)
}

/// The aggregate a fetch call produces: the resolved token program of the
/// queried mint, plus one ordered pool list per supported exchange.
#[derive(Debug)]
pub struct MintPoolData {
    pub mint: Address,
    pub wallet: Address,
    pub token_program: Address,
    pub pump_pools: Vec<PumpPool>,
    pub raydium_pools: Vec<RaydiumPool>,
}

/// Value equality of two aggregates: same addresses, same pool lists.
pub open spec fn pool_data_eq(a: MintPoolData, b: MintPoolData) -> bool {
    &&& a.mint@ == b.mint@
    &&& a.wallet@ == b.wallet@
    &&& a.token_program@ == b.token_program@
    &&& a.pump_pools@ == b.pump_pools@
    &&& a.raydium_pools@ == b.raydium_pools@
}

impl MintPoolData {
    /// Constructs the empty aggregate for `(mint, wallet)` under the given
    /// token program; rejects a wallet or mint string that does not parse.
    pub fn new(mint: &str, wallet_account: &str, token_program: Address) -> (r: Result<
        MintPoolData,
        BotError,
    >)
        ensures
            r is Ok <==> (spec_parsed_address(mint@) is Some && spec_parsed_address(
                wallet_account@,
            ) is Some),
            r matches Ok(d) ==> {
                &&& Some(d.mint@) == spec_parsed_address(mint@)
                &&& Some(d.wallet@) == spec_parsed_address(wallet_account@)
                &&& d.token_program@ == token_program@
                &&& d.pump_pools@.len() == 0
                &&& d.raydium_pools@.len() == 0
            },
            r matches Err(e) ==> (e matches BotError::InvalidAddress { address } && (
            if spec_parsed_address(mint@) is None {
                address@ == mint@
            } else {
                address@ == wallet_account@
            })),
    {
        let mint_address = match parse_address(mint) {
            Some(a) => a,
            None => {
                return Err(BotError::InvalidAddress { address: mint.to_owned() });
            },
        };
        let wallet_address = match parse_address(wallet_account) {
            Some(a) => a,
            None => {
                return Err(BotError::InvalidAddress { address: wallet_account.to_owned() });
            },
        };
        Ok(
            MintPoolData {
                mint: mint_address,
                wallet: wallet_address,
                token_program,
                pump_pools: Vec::new(),
                raydium_pools: Vec::new(),
            },
        )
    }

    /// An owned value copy, the snapshot shape stored in the cache.
    pub fn duplicate(&self) -> (r: MintPoolData)
        ensures
            pool_data_eq(r, *self),
    {
        let pump_pools = self.pump_pools.clone();
        let raydium_pools = self.raydium_pools.clone();
        proof {
            assert(pump_pools@ =~= self.pump_pools@);
            assert(raydium_pools@ =~= self.raydium_pools@);
        }
        MintPoolData {
            mint: self.mint,
            wallet: self.wallet,
            token_program: self.token_program,
            pump_pools,
            raydium_pools,
        }
    }
}

} // verus!
