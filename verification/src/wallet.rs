//! The local wallet: which of the two local files answers for its address.

use crate::text::joined;
use vstd::prelude::*;
use vstd::string::*;

verus! {

/// The locally held keypair and the address that goes with it. It is read
/// and never changed.
#[derive(Clone, Debug, PartialEq, Eq)]
pub struct Credential {
    pub private_key: Vec<u8>,
    pub address: String,
    pub network: String,
}

/// Why there is no local wallet to answer.
#[derive(Clone, Debug, PartialEq, Eq)]
pub enum WalletError {
    /// No file holds one.
    NotFound,
    /// The credential file cannot be read as one; the text says why.
    Corrupt(String),
}

impl WalletError {
    /// What the caller is told.
    pub open spec fn message_text(&self) -> Seq<char> {
        match self {
            WalletError::NotFound => "No wallet found. Initialize with: node src/cli/init.ts"@,
            WalletError::Corrupt(reason) => "Invalid wallet.json: "@ + reason@,
        }
    }

    /// What the caller is told.
    pub fn message(&self) -> (text: String)
        ensures
            text@ == self.message_text(),
    {
        match self {
            WalletError::NotFound => String::from_str(
                "No wallet found. Initialize with: node src/cli/init.ts",
            ),
            WalletError::Corrupt(reason) => joined("Invalid wallet.json: ", reason.as_str()),
        }
    }
}

/// An address and its network, as one of the local files holds them.
#[derive(Clone, Debug, PartialEq, Eq)]
pub struct WalletInfo {
    pub address: String,
    pub network: String,
}

/// The file that an address was read from.
#[derive(Clone, Copy, Debug, PartialEq, Eq, Structural)]
pub enum WalletSource {
    /// The configuration file.
    Config,
    /// The credential file.
    Wallet,
}

/// The address of the local wallet.
#[derive(Clone, Debug, PartialEq, Eq)]
pub struct WalletAddress {
    pub address: String,
    pub network: String,
    pub source: WalletSource,
}

/// Picks the address of the local wallet: the configuration file answers
/// first, the credential file where that one is missing or unreadable, and
/// nobody where both are. Each argument is what one file gave, or nothing
/// where it gave nothing that can be read.
pub fn get_wallet_address(config: Option<WalletInfo>, wallet: Option<WalletInfo>) -> (r: Result<
    WalletAddress,
    WalletError,
>)
    ensures
        match (config, wallet) {
            (Some(info), _) => r == Ok::<WalletAddress, WalletError>(
                WalletAddress {
                    address: info.address,
                    network: info.network,
                    source: WalletSource::Config,
                },
            ),
            (None, Some(info)) => r == Ok::<WalletAddress, WalletError>(
                WalletAddress {
                    address: info.address,
                    network: info.network,
                    source: WalletSource::Wallet,
                },
            ),
            (None, None) => r == Err::<WalletAddress, WalletError>(WalletError::NotFound),
        },
{
    match config {
        Some(info) => Ok(
            WalletAddress {
                address: info.address,
                network: info.network,
                source: WalletSource::Config,
            },
        ),
        None => match wallet {
            Some(info) => Ok(
                WalletAddress {
                    address: info.address,
                    network: info.network,
                    source: WalletSource::Wallet,
                },
            ),
            None => Err(WalletError::NotFound),
        },
    }
}

} // verus!
