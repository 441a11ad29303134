//! Instructions as plain values, and the instructions a transfer is made of.

use crate::keys::AccountKey;
use solana_sdk::compute_budget::ComputeBudgetInstruction;
use solana_sdk::pubkey::Pubkey;
use vstd::bytes::{spec_u32_to_le_bytes, spec_u64_to_le_bytes};
use vstd::prelude::*;

verus! {

/// The program that takes the compute-limit and compute-price directives.
pub const COMPUTE_BUDGET_PROGRAM_ID: [u8; 32] = [
    3, 6, 70, 111, 229, 33, 23, 50, 255, 236, 173, 186, 114, 195, 155, 231,
    188, 140, 229, 187, 197, 247, 18, 107, 44, 67, 155, 58, 64, 0, 0, 0,
];

/// The program that moves the native coin.
pub const SYSTEM_PROGRAM_ID: [u8; 32] = [
    0, 0, 0, 0, 0, 0, 0, 0, 0, 0, 0, 0, 0, 0, 0, 0,
    0, 0, 0, 0, 0, 0, 0, 0, 0, 0, 0, 0, 0, 0, 0, 0,
];

/// The program that moves tokens between token accounts.
pub const TOKEN_PROGRAM_ID: [u8; 32] = [
    6, 221, 246, 225, 215, 101, 161, 147, 217, 203, 225, 70, 206, 235, 121, 172,
    28, 180, 133, 237, 95, 91, 55, 145, 58, 140, 245, 133, 126, 255, 0, 169,
];

/// The program that records a memo.
pub const MEMO_PROGRAM_ID: [u8; 32] = [
    5, 74, 83, 90, 153, 41, 33, 6, 77, 36, 232, 113, 96, 218, 56, 124,
    124, 53, 181, 221, 188, 146, 187, 129, 228, 31, 168, 64, 65, 5, 68, 141,
];

/// An account that an instruction touches.
#[derive(Clone, Copy, Debug, PartialEq, Eq)]
pub struct AccountMeta {
    pub key: AccountKey,
    /// The transaction must carry this account's signature.
    pub is_signer: bool,
    /// The instruction may change the account.
    pub is_writable: bool,
}

/// One instruction: the program that runs it, the accounts it touches in
/// order, and the bytes it hands to the program.
#[derive(Clone, Debug, PartialEq, Eq)]
pub struct Instruction {
    pub program_id: AccountKey,
    pub accounts: Vec<AccountMeta>,
    pub data: Vec<u8>,
}

/// What an [`AccountMeta`] holds.
pub struct MetaView {
    pub key: Seq<u8>,
    pub is_signer: bool,
    pub is_writable: bool,
}

/// What an [`Instruction`] holds.
pub struct InstructionView {
    pub program_id: Seq<u8>,
    pub accounts: Seq<MetaView>,
    pub data: Seq<u8>,
}

impl View for AccountMeta {
    type V = MetaView;

    open spec fn view(&self) -> MetaView {
        MetaView { key: self.key@, is_signer: self.is_signer, is_writable: self.is_writable }
    }
}

impl View for Instruction {
    type V = InstructionView;

    open spec fn view(&self) -> InstructionView {
        InstructionView {
            program_id: self.program_id@,
            accounts: Seq::new(self.accounts@.len(), |i: int| self.accounts@[i]@),
            data: self.data@,
        }
    }
}

/// The views of a list of instructions, in order.
pub open spec fn instruction_views(instructions: Seq<Instruction>) -> Seq<InstructionView> {
    Seq::new(instructions.len(), |i: int| instructions[i]@)
}

/// The byte strings of a list of keys, in order.
pub open spec fn key_views(keys: Seq<AccountKey>) -> Seq<Seq<u8>> {
    Seq::new(keys.len(), |i: int| keys[i]@)
}

/// An account the instruction may change.
pub open spec fn writable(key: Seq<u8>, is_signer: bool) -> MetaView {
    MetaView { key, is_signer, is_writable: true }
}

/// An account the instruction only reads.
pub open spec fn readonly(key: Seq<u8>, is_signer: bool) -> MetaView {
    MetaView { key, is_signer, is_writable: false }
}

/// The directive that caps the compute units of the transaction.
pub open spec fn compute_unit_limit_instruction(units: u32) -> InstructionView {
    InstructionView {
        program_id: COMPUTE_BUDGET_PROGRAM_ID@,
        accounts: Seq::empty(),
        data: seq![2u8] + spec_u32_to_le_bytes(units),
    }
}

/// The directive that sets the price paid per compute unit, in micro-units
/// of the fee.
pub open spec fn compute_unit_price_instruction(micro_lamports: u64) -> InstructionView {
    InstructionView {
        program_id: COMPUTE_BUDGET_PROGRAM_ID@,
        accounts: Seq::empty(),
        data: seq![3u8] + spec_u64_to_le_bytes(micro_lamports),
    }
}

/// The transfer of `lamports` of the native coin from `from`, who signs, to `to`.
pub open spec fn system_transfer_instruction(
    from: Seq<u8>,
    to: Seq<u8>,
    lamports: u64,
) -> InstructionView {
    InstructionView {
        program_id: SYSTEM_PROGRAM_ID@,
        accounts: seq![writable(from, true), writable(to, false)],
        data: seq![2u8, 0u8, 0u8, 0u8] + spec_u64_to_le_bytes(lamports),
    }
}

/// The accounts that sign for a token transfer: the authority itself where
/// no signers are named, else the authority unsigned and each named signer.
pub open spec fn authority_metas(authority: Seq<u8>, signers: Seq<Seq<u8>>) -> Seq<MetaView> {
    seq![readonly(authority, signers.len() == 0)] + Seq::new(
        signers.len(),
        |i: int| readonly(signers[i], true),
    )
}

/// The transfer of `amount` base units between two token accounts.
pub open spec fn token_transfer_instruction(
    source: Seq<u8>,
    destination: Seq<u8>,
    authority: Seq<u8>,
    signers: Seq<Seq<u8>>,
    amount: u64,
) -> InstructionView {
    InstructionView {
        program_id: TOKEN_PROGRAM_ID@,
        accounts: seq![writable(source, false), writable(destination, false)] + authority_metas(
            authority,
            signers,
        ),
        data: seq![3u8] + spec_u64_to_le_bytes(amount),
    }
}

/// The transfer of `amount` base units between two token accounts that also
/// names the mint and the number of decimals, for the program to check.
pub open spec fn token_transfer_checked_instruction(
    source: Seq<u8>,
    mint: Seq<u8>,
    destination: Seq<u8>,
    authority: Seq<u8>,
    signers: Seq<Seq<u8>>,
    amount: u64,
    decimals: u8,
) -> InstructionView {
    InstructionView {
        program_id: TOKEN_PROGRAM_ID@,
        accounts: seq![writable(source, false), readonly(mint, false), writable(destination, false)]
            + authority_metas(authority, signers),
        data: seq![12u8] + spec_u64_to_le_bytes(amount) + seq![decimals],
    }
}

/// The instruction that records `memo`, signed by each of `signers`.
pub open spec fn memo_instruction(memo: Seq<u8>, signers: Seq<Seq<u8>>) -> InstructionView {
    InstructionView {
        program_id: MEMO_PROGRAM_ID@,
        accounts: Seq::new(signers.len(), |i: int| readonly(signers[i], true)),
        data: memo,
    }
}

/// Calls `ComputeBudgetInstruction::set_compute_unit_limit`, which gives the
/// compute-budget program no accounts and the tag 2 followed by the units in
/// little-endian order.
#[verifier::external_body]
pub(crate) fn set_compute_unit_limit(units: u32) -> (ins: Instruction)
    ensures
        ins@ == compute_unit_limit_instruction(units),
{
    let i = ComputeBudgetInstruction::set_compute_unit_limit(units);
    Instruction {
        program_id: AccountKey { bytes: i.program_id.to_bytes() },
        accounts: i.accounts.iter().map(|m| AccountMeta {
            key: AccountKey { bytes: m.pubkey.to_bytes() }, is_signer: m.is_signer, is_writable: m.is_writable,
        }).collect(),
        data: i.data,
    }
}

/// Calls `ComputeBudgetInstruction::set_compute_unit_price`, which gives the
/// compute-budget program no accounts and the tag 3 followed by the price in
/// little-endian order.
#[verifier::external_body]
pub(crate) fn set_compute_unit_price(micro_lamports: u64) -> (ins: Instruction)
    ensures
        ins@ == compute_unit_price_instruction(micro_lamports),
{
    let i = ComputeBudgetInstruction::set_compute_unit_price(micro_lamports);
    Instruction {
        program_id: AccountKey { bytes: i.program_id.to_bytes() },
        accounts: i.accounts.iter().map(|m| AccountMeta {
            key: AccountKey { bytes: m.pubkey.to_bytes() }, is_signer: m.is_signer, is_writable: m.is_writable,
        }).collect(),
        data: i.data,
    }
}

/// Calls `system_instruction::transfer`, which names the sender as a writable
/// signer and the recipient as writable, and encodes the variant index 2 in
/// four bytes followed by the amount in eight, both little-endian.
#[verifier::external_body]
pub(crate) fn system_transfer(from: &AccountKey, to: &AccountKey, lamports: u64) -> (ins:
    Instruction)
    ensures
        ins@ == system_transfer_instruction(from@, to@, lamports),
{
    let i = solana_sdk::system_instruction::transfer(&from.bytes.into(), &to.bytes.into(), lamports);
    Instruction {
        program_id: AccountKey { bytes: i.program_id.to_bytes() },
        accounts: i.accounts.iter().map(|m| AccountMeta {
            key: AccountKey { bytes: m.pubkey.to_bytes() }, is_signer: m.is_signer, is_writable: m.is_writable,
        }).collect(),
        data: i.data,
    }
}

/// Calls `spl_token::instruction::transfer` for the token program itself,
/// which that function never refuses. It names the two token accounts as
/// writable, then the authority and the signers, and encodes the tag 3
/// followed by the amount in little-endian order.
#[verifier::external_body]
pub(crate) fn token_transfer(
    source: &AccountKey,
    destination: &AccountKey,
    authority: &AccountKey,
    signers: &Vec<AccountKey>,
    amount: u64,
) -> (r: Option<Instruction>)
    ensures
        r is Some,
        r matches Some(ins) ==> ins@ == token_transfer_instruction(
            source@,
            destination@,
            authority@,
            key_views(signers@),
            amount,
        ),
{
    let keys: Vec<Pubkey> = signers.iter().map(|k| k.bytes.into()).collect();
    let made = spl_token::instruction::transfer(
        &spl_token::ID, &source.bytes.into(), &destination.bytes.into(), &authority.bytes.into(),
        &keys.iter().collect::<Vec<_>>(), amount,
    );
    made.ok().map(|i| Instruction {
        program_id: AccountKey { bytes: i.program_id.to_bytes() },
        accounts: i.accounts.iter().map(|m| AccountMeta {
            key: AccountKey { bytes: m.pubkey.to_bytes() }, is_signer: m.is_signer, is_writable: m.is_writable,
        }).collect(),
        data: i.data,
    })
}

/// Calls `spl_token::instruction::transfer_checked` for the token program
/// itself, which that function never refuses. It names the source, the mint
/// and the destination, then the authority and the signers, and encodes the
/// tag 12, the amount in little-endian order and the number of decimals.
#[verifier::external_body]
pub(crate) fn token_transfer_checked(
    source: &AccountKey,
    mint: &AccountKey,
    destination: &AccountKey,
    authority: &AccountKey,
    signers: &Vec<AccountKey>,
    amount: u64,
    decimals: u8,
) -> (r: Option<Instruction>)
    ensures
        r is Some,
        r matches Some(ins) ==> ins@ == token_transfer_checked_instruction(
            source@,
            mint@,
            destination@,
            authority@,
            key_views(signers@),
            amount,
            decimals,
        ),
{
    let keys: Vec<Pubkey> = signers.iter().map(|k| k.bytes.into()).collect();
    let made = spl_token::instruction::transfer_checked(
        &spl_token::ID, &source.bytes.into(), &mint.bytes.into(), &destination.bytes.into(),
        &authority.bytes.into(), &keys.iter().collect::<Vec<_>>(), amount, decimals,
    );
    made.ok().map(|i| Instruction {
        program_id: AccountKey { bytes: i.program_id.to_bytes() },
        accounts: i.accounts.iter().map(|m| AccountMeta {
            key: AccountKey { bytes: m.pubkey.to_bytes() }, is_signer: m.is_signer, is_writable: m.is_writable,
        }).collect(),
        data: i.data,
    })
}

/// Calls `spl_memo::build_memo`, which hands the memo program the bytes as
/// they are and names each signer as a read-only signer.
#[verifier::external_body]
pub(crate) fn record_memo(text: &[u8], signers: &Vec<AccountKey>) -> (ins: Instruction)
    ensures
        ins@ == memo_instruction(text@, key_views(signers@)),
{
    let keys: Vec<Pubkey> = signers.iter().map(|k| k.bytes.into()).collect();
    let i = spl_memo::build_memo(text, &keys.iter().collect::<Vec<_>>());
    Instruction {
        program_id: AccountKey { bytes: i.program_id.to_bytes() },
        accounts: i.accounts.iter().map(|m| AccountMeta {
            key: AccountKey { bytes: m.pubkey.to_bytes() }, is_signer: m.is_signer, is_writable: m.is_writable,
        }).collect(),
        data: i.data,
    }
}

} // verus!
