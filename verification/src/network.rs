//! Network names, the endpoints they stand for, and commitment levels.

use crate::text::{opt_string_view, text_eq};
use vstd::prelude::*;
use vstd::string::*;

verus! {

/// How settled the state that a read is answered from has to be.
#[derive(Clone, Copy, Debug, PartialEq, Eq, Structural)]
pub enum Commitment {
    Processed,
    Confirmed,
    Finalized,
}

/// The address of the RPC endpoint of a network. The name is not held against
/// a list: an unknown name gives an address that nothing answers at.
pub open spec fn endpoint_text(network: Seq<char>) -> Seq<char> {
    "https://api."@ + network + ".solana.com"@
}

/// The explorer page of a transaction on a network.
pub open spec fn explorer_link_text(signature: Seq<char>, network: Seq<char>) -> Seq<char> {
    "https://explorer.solana.com/tx/"@ + signature + "?cluster="@ + network
}

/// The commitment level a request asks for: `processed` and `finalized` by
/// name, `confirmed` for anything else and for no name at all.
pub open spec fn commitment_of(name: Option<Seq<char>>) -> Commitment {
    if name == Some("processed"@) {
        Commitment::Processed
    } else if name == Some("finalized"@) {
        Commitment::Finalized
    } else {
        Commitment::Confirmed
    }
}

/// The address of the RPC endpoint of `network`.
pub fn endpoint_for(network: &str) -> (url: String)
    ensures
        url@ == endpoint_text(network@),
{
    let mut url = String::from_str("https://api.");
    url.append(network);
    url.append(".solana.com");
    url
}

/// The explorer page of the transaction `signature` on `network`.
pub fn explorer_link(signature: &str, network: &str) -> (url: String)
    ensures
        url@ == explorer_link_text(signature@, network@),
{
    let mut url = String::from_str("https://explorer.solana.com/tx/");
    url.append(signature);
    url.append("?cluster=");
    url.append(network);
    url
}

/// The commitment level that a request names.
pub fn get_commitment_config(commitment: &Option<String>) -> (level: Commitment)
    ensures
        level == commitment_of(opt_string_view(commitment)),
{
    match commitment {
        Some(name) => {
            if text_eq(name.as_str(), "processed") {
                Commitment::Processed
            } else if text_eq(name.as_str(), "finalized") {
                Commitment::Finalized
            } else {
                Commitment::Confirmed
            }
        },
        None => Commitment::Confirmed,
    }
}

} // verus!
