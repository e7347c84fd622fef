use vstd::prelude::*;
use std::str::FromStr;

verus! {

/// A ledger account address: 32 raw bytes, the decoded form of the base58
/// strings that callers pass in.
#[derive(Clone, Copy, Debug)]
pub struct Address {
    bytes: [u8; 32],
}

impl View for Address {
    type V = Seq<u8>;

    closed spec fn view(&self) -> Seq<u8> {
        self.bytes@
    }
}

impl PartialEq for Address {
    fn eq(&self, other: &Address) -> (r: bool) {
        let mut i: usize = 0;
        while i < 32
            invariant
                0 <= i <= 32,
                forall|j: int| 0 <= j < i ==> self.bytes@[j] == other.bytes@[j],
            decreases 32 - i,
        {
            if self.bytes[i] != other.bytes[i] {
                return false;
            }
            i += 1;
        }
        proof {
            assert(self.bytes@ =~= other.bytes@);
        }
        true
    }
}

impl vstd::std_specs::cmp::PartialEqSpecImpl for Address {
    open spec fn obeys_eq_spec() -> bool {
        true
    }

    open spec fn eq_spec(&self, other: &Address) -> bool {
        self@ == other@
    }
}

impl Eq for Address {}

impl Address {
    /// Every address is exactly 32 bytes long.
    pub proof fn lemma_len(&self)
        ensures
            self@.len() == 32,
    {
    }

    pub fn new(bytes: [u8; 32]) -> (r: Address)
        ensures
            r@ == bytes@,
    {
        Address { bytes }
    }

    pub fn to_array(&self) -> (r: [u8; 32])
        ensures
            r@ == self@,
    {
        self.bytes
    }

    /// The all-zero address, the `Pubkey::default()` of the ledger SDK.
    pub fn zero() -> (r: Address)
        ensures
            r@ == spec_zero_address(),
    {
        let bytes: [u8; 32] = [0; 32];
        proof {
            assert(bytes@ =~= spec_zero_address());
        }
        Address { bytes }
    }
}

pub open spec fn spec_zero_address() -> Seq<u8> {
    Seq::new(32, |i: int| 0u8)
}

/// The owning program of ordinary fungible-asset mints (the standard token
/// program, `TokenkegQfeZyiNwAJbNbGKPFXCWuBvf9Ss623VQ5DA` in base58).
pub open spec fn spec_token_program() -> Seq<u8> {
    seq![
        6u8, 221, 246, 225, 215, 101, 161, 147, 217, 203, 225, 70, 206, 235, 121, 172, 28, 180,
        133, 237, 95, 91, 55, 145, 58, 140, 245, 133, 126, 255, 0, 169,
    ]
}

pub fn token_program_id() -> (r: Address)
    ensures
        r@ == spec_token_program(),
{
    let bytes: [u8; 32] = [
        6, 221, 246, 225, 215, 101, 161, 147, 217, 203, 225, 70, 206, 235, 121, 172, 28, 180, 133,
        237, 95, 91, 55, 145, 58, 140, 245, 133, 126, 255, 0, 169,
    ];
    proof {
        assert(bytes@ =~= spec_token_program());
    }
    Address { bytes }
}

/// The owning program of mints under the extended "2022" token program
/// variant.
pub open spec fn spec_token_2022_program() -> Seq<u8> {
    seq![
        6u8, 221, 246, 225, 215, 101, 161, 147, 217, 203, 225, 70, 206, 235, 121, 172, 28, 180,
        134, 244, 64, 118, 252, 1, 16, 241, 37, 236, 114, 157, 18, 16,
    ]
}

pub fn token_2022_program_id() -> (r: Address)
    ensures
        r@ == spec_token_2022_program(),
{
    let bytes: [u8; 32] = [
        6, 221, 246, 225, 215, 101, 161, 147, 217, 203, 225, 70, 206, 235, 121, 172, 28, 180, 134,
        244, 64, 118, 252, 1, 16, 241, 37, 236, 114, 157, 18, 16,
    ];
    proof {
        assert(bytes@ =~= spec_token_2022_program());
    }
    Address { bytes }
}

/// The mint of the network's native asset (wrapped SOL,
/// `So11111111111111111111111111111111111111112`), used by the adapters to
/// tell which side of a pool holds the native asset.
pub open spec fn spec_native_mint() -> Seq<u8> {
    seq![
        6u8, 155, 136, 87, 254, 171, 129, 132, 251, 104, 127, 99, 70, 24, 192, 53, 218, 196, 57,
        220, 26, 235, 59, 85, 152, 160, 240, 0, 0, 0, 0, 1,
    ]
}

pub fn sol_mint() -> (r: Address)
    ensures
        r@ == spec_native_mint(),
{
    let bytes: [u8; 32] = [
        6, 155, 136, 87, 254, 171, 129, 132, 251, 104, 127, 99, 70, 24, 192, 53, 218, 196, 57, 220,
        26, 235, 59, 85, 152, 160, 240, 0, 0, 0, 0, 1,
    ];
    proof {
        assert(bytes@ =~= spec_native_mint());
    }
    Address { bytes }
}

/// The on-chain program that owns "pump" exchange pool accounts.
pub open spec fn spec_pump_program() -> Seq<u8> {
    seq![
        12u8, 20, 222, 252, 130, 94, 198, 118, 148, 37, 8, 24, 187, 101, 64, 101, 244, 41, 141, 49,
        86, 213, 113, 180, 212, 248, 9, 12, 24, 233, 168, 99,
    ]
}

pub fn pump_program_id() -> (r: Address)
    ensures
        r@ == spec_pump_program(),
{
    let bytes: [u8; 32] = [
        12, 20, 222, 252, 130, 94, 198, 118, 148, 37, 8, 24, 187, 101, 64, 101, 244, 41, 141, 49,
        86, 213, 113, 180, 212, 248, 9, 12, 24, 233, 168, 99,
    ];
    proof {
        assert(bytes@ =~= spec_pump_program());
    }
    Address { bytes }
}

/// The wallet that collects protocol fees for the "pump" exchange.
pub open spec fn spec_pump_fee_wallet() -> Seq<u8> {
    seq![
        74u8, 194, 248, 208, 221, 92, 188, 151, 227, 40, 156, 25, 124, 181, 6, 42, 84, 243, 217,
        86, 185, 206, 110, 81, 21, 249, 101, 103, 170, 92, 179, 230,
    ]
}

pub fn pump_fee_wallet() -> (r: Address)
    ensures
        r@ == spec_pump_fee_wallet(),
{
    let bytes: [u8; 32] = [
        74, 194, 248, 208, 221, 92, 188, 151, 227, 40, 156, 25, 124, 181, 6, 42, 84, 243, 217, 86,
        185, 206, 110, 81, 21, 249, 101, 103, 170, 92, 179, 230,
    ];
    proof {
        assert(bytes@ =~= spec_pump_fee_wallet());
    }
    Address { bytes }
}

/// The on-chain program that owns "raydium" exchange pool accounts.
pub open spec fn spec_raydium_program() -> Seq<u8> {
    seq![
        75u8, 217, 73, 196, 54, 2, 195, 63, 32, 119, 144, 237, 22, 163, 82, 76, 161, 185, 151, 92,
        241, 33, 162, 169, 12, 255, 236, 125, 248, 182, 138, 205,
    ]
}

pub fn raydium_program_id() -> (r: Address)
    ensures
        r@ == spec_raydium_program(),
{
    let bytes: [u8; 32] = [
        75, 217, 73, 196, 54, 2, 195, 63, 32, 119, 144, 237, 22, 163, 82, 76, 161, 185, 151, 92,
        241, 33, 162, 169, 12, 255, 236, 125, 248, 182, 138, 205,
    ];
    proof {
        assert(bytes@ =~= spec_raydium_program());
    }
    Address { bytes }
}

/// What the base58 parser returns for a given string: `Some` of the 32
/// decoded bytes when the string is a well-formed address, `None` otherwise.
/// The outcome depends on the characters of the string alone.
pub uninterp spec fn spec_parsed_address(s: Seq<char>) -> Option<Seq<u8>>;

/// Relies on `solana_sdk::pubkey::Pubkey::from_str`: decodes a base58 string
/// into exactly 32 bytes, or rejects it; the outcome is a pure function of
/// the string.
#[verifier::external_body]
pub fn parse_address(s: &str) -> (r: Option<Address>)
    ensures
        r is Some <==> spec_parsed_address(s@) is Some,
        r is Some ==> r->0@ == spec_parsed_address(s@)->0,
{
    match solana_sdk::pubkey::Pubkey::from_str(s) {
        Ok(pk) => Some(Address { bytes: pk.to_bytes() }),
        Err(_) => None,
    }
}

/// What the associated-token-account derivation returns for a wallet and a
/// mint: a program-derived address computed from those 32-byte values alone
/// (the owning token program is fixed inside the derivation).
pub uninterp spec fn spec_derived_ata(wallet: Seq<u8>, mint: Seq<u8>) -> Seq<u8>;

/// Relies on `spl_associated_token_account::get_associated_token_address`:
/// derives the associated token account of a wallet for a mint, a pure
/// function of the two addresses (it hashes fixed seeds; it is assumed to
/// find a valid bump seed, as every address in practical use does).
#[verifier::external_body]
pub fn derive_associated_token_address(wallet: &Address, mint: &Address) -> (r: Address)
    ensures
        r@ == spec_derived_ata(wallet@, mint@),
{
    #[allow(deprecated)]
    let pk = spl_associated_token_account::get_associated_token_address(
        &wallet.bytes.into(),
        &mint.bytes.into(),
    );
    Address { bytes: pk.to_bytes() }
}

} // verus!
