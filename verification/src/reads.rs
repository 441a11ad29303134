//! The simple reads: what to ask the network for, and what to say once it
//! has answered.

use crate::asset::{associated_address, get_associated_token_address, Asset};
use crate::instruction::TOKEN_PROGRAM_ID;
use crate::keys::{key_of_text, string_to_pub_key, text_of_hash, AccountKey, Blockhash};
use crate::network::{commitment_of, get_commitment_config, Commitment};
use crate::text::{joined, opt_string_view};
use vstd::prelude::*;
use vstd::string::*;

verus! {

/// Why a read was not made.
#[derive(Clone, Copy, Debug, PartialEq, Eq, Structural)]
pub enum ReadError {
    /// The address is malformed.
    InvalidWalletAddress,
    /// The mint of the token is malformed.
    InvalidMint(Asset),
    /// No token account could be derived for the address.
    NoTokenAccount,
}

/// The account to ask for, and how settled the answer has to be.
#[derive(Clone, Copy, Debug, PartialEq, Eq)]
pub struct BalanceQuery {
    pub account: AccountKey,
    pub commitment: Commitment,
}

/// The configuration that every handler is given at startup.
#[derive(Clone, Debug, PartialEq, Eq)]
pub struct GatewayConfig {
    pub default_network: String,
}

/// What the health check answers.
#[derive(Clone, Debug, PartialEq, Eq)]
pub struct Health {
    pub status: String,
    pub service: String,
    pub version: String,
}

/// A fresh checkpoint hash and the network it was fetched from.
#[derive(Clone, Debug, PartialEq, Eq)]
pub struct LatestHash {
    pub blockhash: String,
    pub network: String,
}

impl ReadError {
    /// What the caller is told.
    pub open spec fn message_text(&self) -> Seq<char> {
        match self {
            ReadError::InvalidWalletAddress => "Invalid wallet address"@,
            ReadError::InvalidMint(asset) => "Failed to parse "@ + asset.symbol_text() + " mint"@,
            ReadError::NoTokenAccount => "Failed to derive token account"@,
        }
    }

    /// What the caller is told.
    pub fn message(&self) -> (text: String)
        ensures
            text@ == self.message_text(),
    {
        match self {
            ReadError::InvalidWalletAddress => String::from_str("Invalid wallet address"),
            ReadError::InvalidMint(asset) => {
                let mut text = joined("Failed to parse ", asset.symbol());
                text.append(" mint");
                text
            },
            ReadError::NoTokenAccount => String::from_str("Failed to derive token account"),
        }
    }
}

/// The account whose balance answers for `address`: the address itself for
/// the native coin, its token account for a token.
pub open spec fn balance_account(asset: Asset, address: Seq<char>) -> Result<Seq<u8>, ReadError> {
    match key_of_text(address) {
        Err(_) => Err(ReadError::InvalidWalletAddress),
        Ok(owner) => match asset.mint_address() {
            None => Ok(owner),
            Some(mint_text) => match key_of_text(mint_text) {
                Err(_) => Err(ReadError::InvalidMint(asset)),
                Ok(mint) => match associated_address(owner, mint, TOKEN_PROGRAM_ID@) {
                    None => Err(ReadError::NoTokenAccount),
                    Some(account) => Ok(account),
                },
            },
        },
    }
}

/// What a balance request comes to before the network is asked.
pub open spec fn balance_query(
    asset: Asset,
    address: Seq<char>,
    commitment: Option<Seq<char>>,
) -> Result<(Seq<u8>, Commitment), ReadError> {
    match balance_account(asset, address) {
        Ok(account) => Ok((account, commitment_of(commitment))),
        Err(e) => Err(e),
    }
}

/// The views of the two sides of a query.
pub open spec fn query_view(r: Result<BalanceQuery, ReadError>) -> Result<
    (Seq<u8>, Commitment),
    ReadError,
> {
    match r {
        Ok(query) => Ok((query.account@, query.commitment)),
        Err(e) => Err(e),
    }
}

/// Finds the account whose balance answers for `address`, and the
/// commitment level to ask at.
pub fn balance_of(asset: Asset, address: &str, commitment: &Option<String>) -> (r: Result<
    BalanceQuery,
    ReadError,
>)
    ensures
        query_view(r) == balance_query(asset, address@, opt_string_view(commitment)),
{
    let owner = match string_to_pub_key(address) {
        Ok(key) => key,
        Err(_) => {
            return Err(ReadError::InvalidWalletAddress);
        },
    };
    match asset.mint() {
        None => Ok(BalanceQuery { account: owner, commitment: get_commitment_config(commitment) }),
        Some(mint_text) => {
            let mint = match string_to_pub_key(mint_text) {
                Ok(key) => key,
                Err(_) => {
                    return Err(ReadError::InvalidMint(asset));
                },
            };
            match get_associated_token_address(&owner, &mint) {
                Some(account) => Ok(
                    BalanceQuery { account, commitment: get_commitment_config(commitment) },
                ),
                None => Err(ReadError::NoTokenAccount),
            }
        },
    }
}

/// What to ask the network for the balance of the native coin.
pub fn get_balance(address: &str, commitment: &Option<String>) -> (r: Result<
    BalanceQuery,
    ReadError,
>)
    ensures
        query_view(r) == balance_query(Asset::Sol, address@, opt_string_view(commitment)),
{
    balance_of(Asset::Sol, address, commitment)
}

/// What to ask the network for the balance of USDC.
pub fn get_usdc_balance(address: &str, commitment: &Option<String>) -> (r: Result<
    BalanceQuery,
    ReadError,
>)
    ensures
        query_view(r) == balance_query(Asset::Usdc, address@, opt_string_view(commitment)),
{
    balance_of(Asset::Usdc, address, commitment)
}

/// What to ask the network for the balance of USDT.
pub fn get_usdt_balance(address: &str, commitment: &Option<String>) -> (r: Result<
    BalanceQuery,
    ReadError,
>)
    ensures
        query_view(r) == balance_query(Asset::Usdt, address@, opt_string_view(commitment)),
{
    balance_of(Asset::Usdt, address, commitment)
}

/// What the caller is told once the checkpoint hash was fetched, or why
/// there is none.
pub fn get_latest_hash(network: &str, fetched: Result<Blockhash, String>) -> (r: Result<
    LatestHash,
    String,
>)
    ensures
        match fetched {
            Ok(hash) => r matches Ok(latest) && latest.blockhash@ == text_of_hash(hash@)
                && latest.network@ == network@,
            Err(reason) => r matches Err(message) && message@ == "Failed to get latest blockhash: "@
                + reason@,
        },
{
    match fetched {
        Ok(hash) => Ok(LatestHash { blockhash: hash.to_text(), network: String::from_str(network) }),
        Err(reason) => {
            let mut message = String::from_str("Failed to get latest blockhash: ");
            message.append(reason.as_str());
            Err(message)
        },
    }
}

/// What the health check answers.
pub fn health_check() -> (health: Health)
    ensures
        health.status@ == "healthy"@,
        health.service@ == "fuego-server"@,
        health.version@ == "0.1.0"@,
{
    Health {
        status: String::from_str("healthy"),
        service: String::from_str("fuego-server"),
        version: String::from_str("0.1.0"),
    }
}

impl GatewayConfig {
    /// The configuration of a gateway that stands on the main network.
    pub fn new() -> (config: GatewayConfig)
        ensures
            config.default_network@ == "mainnet-beta"@,
    {
        GatewayConfig { default_network: String::from_str("mainnet-beta") }
    }
}

/// The network that requests go to where they name none.
pub fn get_default_network(config: &GatewayConfig) -> (network: String)
    ensures
        network@ == config.default_network@,
{
    config.default_network.clone()
}

} // verus!
