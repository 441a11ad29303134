//! The assets that can be sent, and the token accounts that hold them.

use crate::instruction::TOKEN_PROGRAM_ID;
use crate::keys::AccountKey;
use crate::text::{opt_text, parse_u64, parsed_u64};
use solana_sdk::pubkey::Pubkey;
use vstd::arithmetic::power::pow;
use vstd::prelude::*;

verus! {

/// The program under which associated token accounts are derived.
pub const ASSOCIATED_TOKEN_PROGRAM_ID: [u8; 32] = [
    140, 151, 37, 143, 78, 36, 137, 241, 187, 61, 16, 41, 20, 142, 13, 131,
    11, 90, 19, 153, 218, 255, 16, 132, 4, 142, 123, 216, 219, 233, 248, 89,
];

/// The compute-unit price of a USDT transfer whose request names none.
pub const USDT_UNIT_PRICE: u64 = 100;

/// An asset that the gateway moves.
#[derive(Clone, Copy, Debug, PartialEq, Eq, Structural)]
pub enum Asset {
    /// The native coin.
    Sol,
    /// The USDC stablecoin.
    Usdc,
    /// The USDT stablecoin.
    Usdt,
}

/// The text form of the mint of USDC.
pub open spec fn usdc_mint_address() -> Seq<char> {
    "EPjFWdd5AufqSSqeM2qN1xzybapC8G4wEGGkZwyTDt1v"@
}

/// The text form of the mint of USDT.
pub open spec fn usdt_mint_address() -> Seq<char> {
    "Es9vMFrzaCERmJfrF4H2FYD4KCoNkY11McCe8BenEqw"@
}

/// The text form of the mint of USDC.
pub fn usdc_mint() -> (text: &'static str)
    ensures
        text@ == usdc_mint_address(),
{
    "EPjFWdd5AufqSSqeM2qN1xzybapC8G4wEGGkZwyTDt1v"
}

/// The text form of the mint of USDT.
pub fn usdt_mint() -> (text: &'static str)
    ensures
        text@ == usdt_mint_address(),
{
    "Es9vMFrzaCERmJfrF4H2FYD4KCoNkY11McCe8BenEqw"
}

/// The address that `Pubkey::try_find_program_address` derives from three
/// seeds under a program, if it finds one.
pub uninterp spec fn program_address(seeds: Seq<Seq<u8>>, program: Seq<u8>) -> Option<Seq<u8>>;

/// The token account of `owner` for `mint` under `token_program`: the program
/// address of the seeds owner, token program, mint, in this order, under the
/// associated-token-account program.
pub open spec fn associated_address(
    owner: Seq<u8>,
    mint: Seq<u8>,
    token_program: Seq<u8>,
) -> Option<Seq<u8>> {
    program_address(seq![owner, token_program, mint], ASSOCIATED_TOKEN_PROGRAM_ID@)
}

/// The view of an optional key.
pub open spec fn opt_key_view(key: Option<AccountKey>) -> Option<Seq<u8>> {
    match key {
        Some(k) => Some(k@),
        None => None,
    }
}

/// The view of optional key bytes.
pub open spec fn opt_array_view(key: Option<[u8; 32]>) -> Option<Seq<u8>> {
    match key {
        Some(k) => Some(k@),
        None => None,
    }
}

/// Calls `Pubkey::try_find_program_address` with the three seeds and keeps
/// the address. The contract claims only that the outcome depends on the
/// arguments alone.
#[verifier::external_body]
fn find_program_address(
    first: &[u8; 32],
    second: &[u8; 32],
    third: &[u8; 32],
    program: &[u8; 32],
) -> (r: Option<[u8; 32]>)
    ensures
        opt_array_view(r) == program_address(seq![first@, second@, third@], program@),
{
    let found = Pubkey::try_find_program_address(&[first, second, third], &Pubkey::new_from_array(*program));
    found.map(|(address, _)| address.to_bytes())
}

/// Derives the token account of `owner` for `mint` under `token_program`.
/// The result depends on the three keys alone.
pub fn derive(owner: &AccountKey, mint: &AccountKey, token_program: &AccountKey) -> (r: Option<
    AccountKey,
>)
    ensures
        opt_key_view(r) == associated_address(owner@, mint@, token_program@),
{
    match find_program_address(
        &owner.bytes,
        &token_program.bytes,
        &mint.bytes,
        &ASSOCIATED_TOKEN_PROGRAM_ID,
    ) {
        Some(bytes) => Some(AccountKey { bytes }),
        None => None,
    }
}

/// Derives the token account of `owner` for `mint` under the token program.
pub fn get_associated_token_address(owner: &AccountKey, mint: &AccountKey) -> (r: Option<
    AccountKey,
>)
    ensures
        opt_key_view(r) == associated_address(owner@, mint@, TOKEN_PROGRAM_ID@),
{
    derive(owner, mint, &AccountKey { bytes: TOKEN_PROGRAM_ID })
}

impl Asset {
    /// The name of the asset as it stands in a memo.
    pub open spec fn symbol_text(self) -> Seq<char> {
        match self {
            Asset::Sol => "SOL"@,
            Asset::Usdc => "USDC"@,
            Asset::Usdt => "USDT"@,
        }
    }

    /// The number of decimal places of an amount.
    pub open spec fn decimal_places(self) -> u8 {
        match self {
            Asset::Sol => 9,
            Asset::Usdc => 6,
            Asset::Usdt => 6,
        }
    }

    /// The number of base units in one whole unit: ten to the number of
    /// decimal places.
    pub open spec fn base_units_per_unit(self) -> u64 {
        match self {
            Asset::Sol => 1_000_000_000,
            Asset::Usdc => 1_000_000,
            Asset::Usdt => 1_000_000,
        }
    }

    /// The compute units a transfer of the asset may use.
    pub open spec fn unit_limit(self) -> u32 {
        match self {
            Asset::Sol => 100_000,
            Asset::Usdc => 100_000,
            Asset::Usdt => 300_000,
        }
    }

    /// The text form of the mint of a token; the native coin has none.
    pub open spec fn mint_address(self) -> Option<Seq<char>> {
        match self {
            Asset::Sol => None,
            Asset::Usdc => Some(usdc_mint_address()),
            Asset::Usdt => Some(usdt_mint_address()),
        }
    }

    /// The price per compute unit of a transfer whose request names none:
    /// nothing for the native coin and for USDC, a fixed price for USDT.
    pub open spec fn default_unit_price(self) -> u64 {
        match self {
            Asset::Sol => 0,
            Asset::Usdc => 0,
            Asset::Usdt => USDT_UNIT_PRICE,
        }
    }

    /// The price per compute unit of a transfer: the one the request names,
    /// and the default of the asset where it names none or names no number.
    pub open spec fn unit_price(self, fee_amount: Option<Seq<char>>) -> u64 {
        match fee_amount {
            Some(text) => match parsed_u64(text) {
                Some(price) => price,
                None => self.default_unit_price(),
            },
            None => self.default_unit_price(),
        }
    }

    /// The name of the asset as it stands in a memo.
    pub fn symbol(self) -> (s: &'static str)
        ensures
            s@ == self.symbol_text(),
    {
        match self {
            Asset::Sol => "SOL",
            Asset::Usdc => "USDC",
            Asset::Usdt => "USDT",
        }
    }

    /// The number of decimal places of an amount.
    pub fn decimals(self) -> (d: u8)
        ensures
            d == self.decimal_places(),
    {
        match self {
            Asset::Sol => 9,
            Asset::Usdc => 6,
            Asset::Usdt => 6,
        }
    }

    /// The number of base units in one whole unit.
    pub fn scale(self) -> (s: u64)
        ensures
            s == self.base_units_per_unit(),
    {
        match self {
            Asset::Sol => 1_000_000_000,
            Asset::Usdc => 1_000_000,
            Asset::Usdt => 1_000_000,
        }
    }

    /// The compute units a transfer of the asset may use.
    pub fn compute_unit_limit(self) -> (units: u32)
        ensures
            units == self.unit_limit(),
    {
        match self {
            Asset::Sol => 100_000,
            Asset::Usdc => 100_000,
            Asset::Usdt => 300_000,
        }
    }

    /// The text form of the mint of a token; the native coin has none.
    pub fn mint(self) -> (m: Option<&'static str>)
        ensures
            opt_text(m) == self.mint_address(),
    {
        match self {
            Asset::Sol => None,
            Asset::Usdc => Some(usdc_mint()),
            Asset::Usdt => Some(usdt_mint()),
        }
    }

    /// The price per compute unit of a transfer whose request names none.
    pub fn default_compute_unit_price(self) -> (price: u64)
        ensures
            price == self.default_unit_price(),
    {
        match self {
            Asset::Sol => 0,
            Asset::Usdc => 0,
            Asset::Usdt => USDT_UNIT_PRICE,
        }
    }

    /// The price per compute unit of a transfer whose request names
    /// `fee_amount`.
    pub fn compute_unit_price(self, fee_amount: Option<&str>) -> (price: u64)
        ensures
            price == self.unit_price(opt_text(fee_amount)),
    {
        match fee_amount {
            Some(text) => match parse_u64(text) {
                Some(price) => price,
                None => self.default_compute_unit_price(),
            },
            None => self.default_compute_unit_price(),
        }
    }
}

/// One whole unit of an asset is ten to the number of its decimal places
/// in base units.
pub proof fn law_scale_is_a_power_of_ten(asset: Asset)
    ensures
        asset.base_units_per_unit() == pow(10, asset.decimal_places() as nat),
{
    reveal_with_fuel(pow, 10);
}

/// Deriving a token account twice from the same keys gives the same
/// account.
pub proof fn law_derivation_is_deterministic(
    owner: AccountKey,
    mint: AccountKey,
    token_program: AccountKey,
    first: Option<AccountKey>,
    second: Option<AccountKey>,
)
    requires
        opt_key_view(first) == associated_address(owner@, mint@, token_program@),
        opt_key_view(second) == associated_address(owner@, mint@, token_program@),
    ensures
        opt_key_view(first) == opt_key_view(second),
{
}

} // verus!
