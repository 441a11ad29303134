//! Transactions on the wire: bytes out of instructions, and bytes in text.

use crate::instruction::{instruction_views, Instruction, InstructionView};
use crate::keys::{AccountKey, Blockhash};
use base64::engine::general_purpose::STANDARD;
use base64::Engine;
use solana_sdk::instruction::{AccountMeta as OutsideMeta, Instruction as OutsideInstruction};
use solana_sdk::message::Message;
use solana_sdk::signer::keypair::Keypair;
use solana_sdk::transaction::{Transaction, VersionedTransaction};
use vstd::prelude::*;

verus! {

/// The most instructions a transaction of this library is made of.
pub const MAX_INSTRUCTIONS: usize = 16;

/// The most accounts one of its instructions names.
pub const MAX_ACCOUNTS: usize = 12;

/// Why a transaction could not be signed with a local key.
#[derive(Clone, Debug, PartialEq, Eq)]
pub enum SignFailure {
    /// The bytes are not a keypair.
    InvalidKey,
    /// The signer refused; the text says why.
    Signer(String),
    /// The transaction could not be read or written; the text says why.
    Encoding(String),
}

/// What a [`SignFailure`] holds.
pub enum SignFailureView {
    InvalidKey,
    Signer(Seq<char>),
    Encoding(Seq<char>),
}

impl View for SignFailure {
    type V = SignFailureView;

    open spec fn view(&self) -> SignFailureView {
        match self {
            SignFailure::InvalidKey => SignFailureView::InvalidKey,
            SignFailure::Signer(text) => SignFailureView::Signer(text@),
            SignFailure::Encoding(text) => SignFailureView::Encoding(text@),
        }
    }
}

/// The bytes of the unsigned legacy transaction that carries the given
/// instructions in order, pays its fee from `payer` and is bound to
/// `blockhash`; or the encoder's words where it refuses.
pub uninterp spec fn unsigned_wire(
    instructions: Seq<InstructionView>,
    payer: Seq<u8>,
    blockhash: Seq<u8>,
) -> Result<Seq<u8>, Seq<char>>;

/// The bytes of the transaction `wire` once the keypair `secret` has put its
/// signature in its place; or why it could not.
pub uninterp spec fn signed_wire(wire: Seq<u8>, secret: Seq<u8>) -> Result<
    Seq<u8>,
    SignFailureView,
>;

/// Whether the bytes decode as a transaction of the legacy format.
pub uninterp spec fn decodes_as_legacy(bytes: Seq<u8>) -> bool;

/// Whether the bytes decode as a transaction of the versioned format.
pub uninterp spec fn decodes_as_versioned(bytes: Seq<u8>) -> bool;

/// The standard base64 text, with padding, of the bytes.
pub uninterp spec fn base64_text(bytes: Seq<u8>) -> Seq<char>;

/// The bytes that a standard base64 text, with padding, stands for.
pub uninterp spec fn base64_bytes(text: Seq<char>) -> Option<Seq<u8>>;

/// Whether the instructions are few enough, and name few enough accounts,
/// for a message to hold their keys.
pub open spec fn fits_message(instructions: Seq<Instruction>) -> bool {
    &&& instructions.len() <= MAX_INSTRUCTIONS
    &&& forall|i: int|
        0 <= i < instructions.len() ==> (#[trigger] instructions[i]).accounts@.len()
            <= MAX_ACCOUNTS
}

/// Whether the bytes are an unsigned transaction as this library makes them.
pub open spec fn is_unsigned_wire(wire: Seq<u8>) -> bool {
    exists|instructions: Seq<InstructionView>, payer: Seq<u8>, blockhash: Seq<u8>|
        unsigned_wire(instructions, payer, blockhash) == Ok::<Seq<u8>, Seq<char>>(wire)
}

/// The views of the two sides of a byte result.
pub open spec fn wire_result_view(r: Result<Vec<u8>, String>) -> Result<Seq<u8>, Seq<char>> {
    match r {
        Ok(bytes) => Ok(bytes@),
        Err(text) => Err(text@),
    }
}

/// The views of the two sides of a signing result.
pub open spec fn sign_result_view(r: Result<Vec<u8>, SignFailure>) -> Result<
    Seq<u8>,
    SignFailureView,
> {
    match r {
        Ok(bytes) => Ok(bytes@),
        Err(failure) => Err(failure@),
    }
}

/// The view of optional bytes.
pub open spec fn opt_bytes_view(r: Option<Vec<u8>>) -> Option<Seq<u8>> {
    match r {
        Some(bytes) => Some(bytes@),
        None => None,
    }
}

/// Compiles the instructions into a message with `Message::new_with_blockhash`,
/// wraps it with `Transaction::new_unsigned` and encodes it with
/// `bincode::serialize`. The contract claims only that the outcome depends on
/// the arguments alone. The message compiler gives up above 255 keys, which
/// the bounds keep far away.
#[verifier::external_body]
pub(crate) fn compile_unsigned(
    instructions: &Vec<Instruction>,
    payer: &AccountKey,
    blockhash: &Blockhash,
) -> (r: Result<Vec<u8>, String>)
    requires
        fits_message(instructions@),
    ensures
        wire_result_view(r) == unsigned_wire(instruction_views(instructions@), payer@, blockhash@),
{
    let outside: Vec<OutsideInstruction> = instructions.iter().map(|i| OutsideInstruction {
        program_id: i.program_id.bytes.into(),
        accounts: i.accounts.iter().map(|a| OutsideMeta {
            pubkey: a.key.bytes.into(), is_signer: a.is_signer, is_writable: a.is_writable,
        }).collect(),
        data: i.data.clone(),
    }).collect();
    let message = Message::new_with_blockhash(&outside, Some(&payer.bytes.into()), &blockhash.bytes.into());
    bincode::serialize(&Transaction::new_unsigned(message)).map_err(|e| e.to_string())
}

/// Decodes the transaction with `bincode::deserialize`, reads the keypair with
/// `Keypair::from_bytes`, signs with `Transaction::try_partial_sign` under the
/// transaction's own checkpoint hash and encodes with `bincode::serialize`.
/// The signature scheme is deterministic, so the contract claims only that
/// the outcome depends on the arguments alone.
#[allow(deprecated)]
#[verifier::external_body]
pub(crate) fn partial_sign(wire: &[u8], secret: &[u8]) -> (r: Result<Vec<u8>, SignFailure>)
    requires
        is_unsigned_wire(wire@),
    ensures
        sign_result_view(r) == signed_wire(wire@, secret@),
{
    let mut transaction: Transaction = bincode::deserialize(wire).map_err(
        |e| SignFailure::Encoding(e.to_string()),
    )?;
    let keypair = Keypair::from_bytes(secret).map_err(|_| SignFailure::InvalidKey)?;
    let blockhash = transaction.message.recent_blockhash;
    transaction.try_partial_sign(&[&keypair], blockhash).map_err(|e| SignFailure::Signer(e.to_string()))?;
    bincode::serialize(&transaction).map_err(|e| SignFailure::Encoding(e.to_string()))
}

/// Asks `bincode::deserialize` whether the bytes are a `Transaction`.
#[verifier::external_body]
pub(crate) fn is_legacy_transaction(bytes: &[u8]) -> (ok: bool)
    ensures
        ok == decodes_as_legacy(bytes@),
{
    bincode::deserialize::<Transaction>(bytes).is_ok()
}

/// Asks `bincode::deserialize` whether the bytes are a `VersionedTransaction`.
#[verifier::external_body]
pub(crate) fn is_versioned_transaction(bytes: &[u8]) -> (ok: bool)
    ensures
        ok == decodes_as_versioned(bytes@),
{
    bincode::deserialize::<VersionedTransaction>(bytes).is_ok()
}

/// Calls `encode` of base64's `STANDARD` engine. Its one panic, on a length
/// that overflows, cannot be reached from a slice.
#[verifier::external_body]
pub(crate) fn base64_encode(bytes: &[u8]) -> (text: String)
    ensures
        text@ == base64_text(bytes@),
{
    STANDARD.encode(bytes)
}

/// Calls `decode` of base64's `STANDARD` engine.
#[verifier::external_body]
pub(crate) fn base64_decode(text: &str) -> (r: Option<Vec<u8>>)
    ensures
        opt_bytes_view(r) == base64_bytes(text@),
{
    STANDARD.decode(text).ok()
}

} // verus!
