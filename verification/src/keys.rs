//! Account keys, checkpoint hashes and signatures, with their text forms.

use solana_sdk::hash::ParseHashError;
use solana_sdk::pubkey::{ParsePubkeyError, Pubkey};
use solana_sdk::signature::{ParseSignatureError, Signature};
use std::str::FromStr;
use vstd::prelude::*;

verus! {

/// A 32-byte public identifier of an account.
#[derive(Clone, Copy, Debug, PartialEq, Eq)]
pub struct AccountKey {
    pub bytes: [u8; 32],
}

impl View for AccountKey {
    type V = Seq<u8>;

    open spec fn view(&self) -> Seq<u8> {
        self.bytes@
    }
}

/// A 32-byte checkpoint hash: the recent network state a transaction is bound to.
#[derive(Clone, Copy, Debug, PartialEq, Eq)]
pub struct Blockhash {
    pub bytes: [u8; 32],
}

impl View for Blockhash {
    type V = Seq<u8>;

    open spec fn view(&self) -> Seq<u8> {
        self.bytes@
    }
}

/// A 64-byte transaction signature.
#[derive(Clone, Copy, Debug, PartialEq, Eq)]
pub struct TransactionSignature {
    pub bytes: [u8; 64],
}

impl View for TransactionSignature {
    type V = Seq<u8>;

    open spec fn view(&self) -> Seq<u8> {
        self.bytes@
    }
}

/// Why a text is not the text form of a fixed-size identifier.
#[derive(Clone, Copy, Debug, PartialEq, Eq, Structural)]
pub enum ParseError {
    /// The text decodes to more or fewer bytes than the identifier has.
    WrongSize,
    /// The text holds a character outside the alphabet.
    Invalid,
}

/// What `Pubkey::from_str` makes of a text: the 32 bytes, or the reason for
/// its refusal.
pub uninterp spec fn key_of_text(text: Seq<char>) -> Result<Seq<u8>, ParseError>;

/// What `Hash::from_str` makes of a text.
pub uninterp spec fn hash_of_text(text: Seq<char>) -> Result<Seq<u8>, ParseError>;

/// What `Signature::from_str` makes of a text.
pub uninterp spec fn signature_of_text(text: Seq<char>) -> Result<Seq<u8>, ParseError>;

/// The text that `Hash`'s `Display` gives to 32 bytes.
pub uninterp spec fn text_of_hash(bytes: Seq<u8>) -> Seq<char>;

/// Calls `Pubkey::from_str` and hands out the key's bytes. The contract
/// claims only that the outcome depends on the text alone.
#[verifier::external_body]
fn pubkey_from_str(text: &str) -> (r: Result<[u8; 32], ParseError>)
    ensures
        match r {
            Ok(bytes) => key_of_text(text@) == Ok::<Seq<u8>, ParseError>(bytes@),
            Err(e) => key_of_text(text@) == Err::<Seq<u8>, ParseError>(e),
        },
{
    match Pubkey::from_str(text) {
        Ok(key) => Ok(key.to_bytes()),
        Err(ParsePubkeyError::WrongSize) => Err(ParseError::WrongSize),
        Err(ParsePubkeyError::Invalid) => Err(ParseError::Invalid),
    }
}

/// Calls `Hash::from_str` and hands out the hash's bytes. The contract claims
/// only that the outcome depends on the text alone.
#[verifier::external_body]
fn hash_from_str(text: &str) -> (r: Result<[u8; 32], ParseError>)
    ensures
        match r {
            Ok(bytes) => hash_of_text(text@) == Ok::<Seq<u8>, ParseError>(bytes@),
            Err(e) => hash_of_text(text@) == Err::<Seq<u8>, ParseError>(e),
        },
{
    match solana_sdk::hash::Hash::from_str(text) {
        Ok(hash) => Ok(hash.to_bytes()),
        Err(ParseHashError::WrongSize) => Err(ParseError::WrongSize),
        Err(ParseHashError::Invalid) => Err(ParseError::Invalid),
    }
}

/// Calls `Signature::from_str` and hands out the signature's bytes. The
/// contract claims only that the outcome depends on the text alone.
#[verifier::external_body]
fn signature_from_str(text: &str) -> (r: Result<[u8; 64], ParseError>)
    ensures
        match r {
            Ok(bytes) => signature_of_text(text@) == Ok::<Seq<u8>, ParseError>(bytes@),
            Err(e) => signature_of_text(text@) == Err::<Seq<u8>, ParseError>(e),
        },
{
    match Signature::from_str(text) {
        Ok(signature) => Ok(signature.into()),
        Err(ParseSignatureError::WrongSize) => Err(ParseError::WrongSize),
        Err(ParseSignatureError::Invalid) => Err(ParseError::Invalid),
    }
}

/// Calls `to_string` on a `Hash` made of the given bytes. The contract claims
/// only that the text depends on the bytes alone.
#[verifier::external_body]
fn hash_to_string(bytes: &[u8; 32]) -> (text: String)
    ensures
        text@ == text_of_hash(bytes@),
{
    solana_sdk::hash::Hash::new_from_array(*bytes).to_string()
}

/// Reads an account key from its text form. A text that does not decode to
/// exactly 32 bytes is refused; nothing is accepted in part.
pub fn string_to_pub_key(account: &str) -> (r: Result<AccountKey, ParseError>)
    ensures
        match r {
            Ok(key) => key_of_text(account@) == Ok::<Seq<u8>, ParseError>(key@),
            Err(e) => key_of_text(account@) == Err::<Seq<u8>, ParseError>(e),
        },
{
    match pubkey_from_str(account) {
        Ok(bytes) => Ok(AccountKey { bytes }),
        Err(e) => Err(e),
    }
}

/// Reads a transaction signature from its text form.
pub fn string_to_signature(transaction: &str) -> (r: Result<TransactionSignature, ParseError>)
    ensures
        match r {
            Ok(signature) => signature_of_text(transaction@) == Ok::<Seq<u8>, ParseError>(
                signature@,
            ),
            Err(e) => signature_of_text(transaction@) == Err::<Seq<u8>, ParseError>(e),
        },
{
    match signature_from_str(transaction) {
        Ok(bytes) => Ok(TransactionSignature { bytes }),
        Err(e) => Err(e),
    }
}

impl Blockhash {
    /// Reads a checkpoint hash from its text form.
    pub fn parse(text: &str) -> (r: Result<Blockhash, ParseError>)
        ensures
            match r {
                Ok(hash) => hash_of_text(text@) == Ok::<Seq<u8>, ParseError>(hash@),
                Err(e) => hash_of_text(text@) == Err::<Seq<u8>, ParseError>(e),
            },
    {
        match hash_from_str(text) {
            Ok(bytes) => Ok(Blockhash { bytes }),
            Err(e) => Err(e),
        }
    }

    /// The text form of the hash.
    pub fn to_text(&self) -> (text: String)
        ensures
            text@ == text_of_hash(self@),
    {
        hash_to_string(&self.bytes)
    }
}

} // verus!
