//! Unsigned transfers: from a request and a fresh checkpoint hash to the
//! bytes that the sender signs.

use crate::asset::{associated_address, get_associated_token_address, Asset};
use crate::instruction::{
    compute_unit_limit_instruction, compute_unit_price_instruction, instruction_views, key_views,
    memo_instruction, record_memo, set_compute_unit_limit, set_compute_unit_price,
    system_transfer, system_transfer_instruction, token_transfer, token_transfer_instruction,
    Instruction, InstructionView, COMPUTE_BUDGET_PROGRAM_ID, MEMO_PROGRAM_ID, SYSTEM_PROGRAM_ID,
    TOKEN_PROGRAM_ID,
};
use crate::keys::{
    key_of_text, string_to_pub_key, text_of_hash, AccountKey, Blockhash, ParseError,
};
use crate::memo::{build_memo, memo_text, note_fits, note_len, note_or_empty, note_too_long_text};
use crate::text::{joined, opt_as_str, opt_string_view};
use crate::wire::{base64_encode, base64_text, compile_unsigned, fits_message, unsigned_wire};
use vstd::prelude::*;
use vstd::string::*;
use vstd::utf8::encode_utf8;

verus! {

/// What a caller asks for: who pays whom how much, on which network.
#[derive(Clone, Debug, PartialEq, Eq)]
pub struct TransferRequest {
    pub network: String,
    pub from_address: String,
    pub to_address: String,
    /// The amount in whole units, as the caller wrote it.
    pub amount: String,
    /// The caller's tracking identifier.
    pub yid: String,
    /// A note of at most 16 characters.
    pub notes: Option<String>,
    /// The price per compute unit, in decimal.
    pub fee_amount: Option<String>,
}

/// What a [`TransferRequest`] holds.
pub struct TransferRequestView {
    pub network: Seq<char>,
    pub from_address: Seq<char>,
    pub to_address: Seq<char>,
    pub amount: Seq<char>,
    pub yid: Seq<char>,
    pub notes: Option<Seq<char>>,
    pub fee_amount: Option<Seq<char>>,
}

impl View for TransferRequest {
    type V = TransferRequestView;

    open spec fn view(&self) -> TransferRequestView {
        TransferRequestView {
            network: self.network@,
            from_address: self.from_address@,
            to_address: self.to_address@,
            amount: self.amount@,
            yid: self.yid@,
            notes: opt_string_view(&self.notes),
            fee_amount: opt_string_view(&self.fee_amount),
        }
    }
}

/// An unsigned transfer, ready for the sender to sign.
#[derive(Clone, Debug, PartialEq, Eq)]
pub struct BuiltTransfer {
    /// The transaction in base64.
    pub transaction: String,
    /// The checkpoint hash the transaction is bound to, in text form.
    pub blockhash: String,
    pub from: String,
    pub to: String,
    pub amount: String,
    pub yid: String,
    pub memo: String,
    pub network: String,
}

/// What a [`BuiltTransfer`] holds.
pub struct BuiltTransferView {
    pub transaction: Seq<char>,
    pub blockhash: Seq<char>,
    pub from: Seq<char>,
    pub to: Seq<char>,
    pub amount: Seq<char>,
    pub yid: Seq<char>,
    pub memo: Seq<char>,
    pub network: Seq<char>,
}

impl View for BuiltTransfer {
    type V = BuiltTransferView;

    open spec fn view(&self) -> BuiltTransferView {
        BuiltTransferView {
            transaction: self.transaction@,
            blockhash: self.blockhash@,
            from: self.from@,
            to: self.to@,
            amount: self.amount@,
            yid: self.yid@,
            memo: self.memo@,
            network: self.network@,
        }
    }
}

/// Why no transfer was built.
#[derive(Clone, Debug, PartialEq, Eq)]
pub enum BuildError {
    /// The checkpoint hash could not be fetched; the text says why.
    NetworkUnavailable(String),
    /// The sender's address is malformed.
    InvalidFromAddress,
    /// The recipient's address is malformed.
    InvalidToAddress,
    /// The mint of the token is malformed.
    InvalidMint(Asset),
    /// No token account could be derived for one of the two parties.
    NoTokenAccount,
    /// The amount is not a number.
    InvalidAmount,
    /// The note is too long; the text says by how much.
    NoteTooLong(String),
    /// The transaction could not be encoded.
    Serialize,
}

/// What a [`BuildError`] holds.
pub enum BuildErrorView {
    NetworkUnavailable(Seq<char>),
    InvalidFromAddress,
    InvalidToAddress,
    InvalidMint(Asset),
    NoTokenAccount,
    InvalidAmount,
    NoteTooLong(Seq<char>),
    Serialize,
}

impl View for BuildError {
    type V = BuildErrorView;

    open spec fn view(&self) -> BuildErrorView {
        match self {
            BuildError::NetworkUnavailable(reason) => BuildErrorView::NetworkUnavailable(reason@),
            BuildError::InvalidFromAddress => BuildErrorView::InvalidFromAddress,
            BuildError::InvalidToAddress => BuildErrorView::InvalidToAddress,
            BuildError::InvalidMint(asset) => BuildErrorView::InvalidMint(*asset),
            BuildError::NoTokenAccount => BuildErrorView::NoTokenAccount,
            BuildError::InvalidAmount => BuildErrorView::InvalidAmount,
            BuildError::NoteTooLong(text) => BuildErrorView::NoteTooLong(text@),
            BuildError::Serialize => BuildErrorView::Serialize,
        }
    }
}

impl BuildError {
    /// What the caller is told.
    pub open spec fn message_text(&self) -> Seq<char> {
        match self {
            BuildError::NetworkUnavailable(reason) => "Failed to fetch blockhash: "@ + reason@,
            BuildError::InvalidFromAddress => "Invalid from_address"@,
            BuildError::InvalidToAddress => "Invalid to_address"@,
            BuildError::InvalidMint(asset) => "Invalid "@ + asset.symbol_text() + " mint"@,
            BuildError::NoTokenAccount => "Failed to derive token account"@,
            BuildError::InvalidAmount => "Invalid amount"@,
            BuildError::NoteTooLong(text) => text@,
            BuildError::Serialize => "Failed to serialize transaction"@,
        }
    }

    /// What the caller is told.
    pub fn message(&self) -> (text: String)
        ensures
            text@ == self.message_text(),
    {
        match self {
            BuildError::NetworkUnavailable(reason) => joined(
                "Failed to fetch blockhash: ",
                reason.as_str(),
            ),
            BuildError::InvalidFromAddress => String::from_str("Invalid from_address"),
            BuildError::InvalidToAddress => String::from_str("Invalid to_address"),
            BuildError::InvalidMint(asset) => {
                let mut text = joined("Invalid ", asset.symbol());
                text.append(" mint");
                text
            },
            BuildError::NoTokenAccount => String::from_str("Failed to derive token account"),
            BuildError::InvalidAmount => String::from_str("Invalid amount"),
            BuildError::NoteTooLong(text) => text.clone(),
            BuildError::Serialize => String::from_str("Failed to serialize transaction"),
        }
    }
}

/// The two accounts that the transfer instruction moves the asset between:
/// the parties themselves for the native coin, their token accounts for a
/// token.
pub open spec fn transfer_accounts(asset: Asset, from: Seq<u8>, to: Seq<u8>) -> Result<
    (Seq<u8>, Seq<u8>),
    BuildErrorView,
> {
    match asset.mint_address() {
        None => Ok((from, to)),
        Some(mint_text) => match key_of_text(mint_text) {
            Err(_) => Err(BuildErrorView::InvalidMint(asset)),
            Ok(mint) => match associated_address(from, mint, TOKEN_PROGRAM_ID@) {
                None => Err(BuildErrorView::NoTokenAccount),
                Some(source) => match associated_address(to, mint, TOKEN_PROGRAM_ID@) {
                    None => Err(BuildErrorView::NoTokenAccount),
                    Some(destination) => Ok((source, destination)),
                },
            },
        },
    }
}

/// The instruction that moves the asset.
pub open spec fn movement_instruction(
    asset: Asset,
    from: Seq<u8>,
    source: Seq<u8>,
    destination: Seq<u8>,
    amount: u64,
) -> InstructionView {
    match asset {
        Asset::Sol => system_transfer_instruction(source, destination, amount),
        Asset::Usdc => token_transfer_instruction(source, destination, from, seq![from], amount),
        Asset::Usdt => token_transfer_instruction(source, destination, from, Seq::empty(), amount),
    }
}

/// The instruction that records the memo. In a USDT transfer the sender
/// signs it.
pub open spec fn annotation_instruction(asset: Asset, from: Seq<u8>, memo: Seq<u8>) -> InstructionView {
    match asset {
        Asset::Usdt => memo_instruction(memo, seq![from]),
        _ => memo_instruction(memo, Seq::empty()),
    }
}

/// The instructions of a transfer, in the order in which they stand in the
/// transaction: the compute limit, the compute price, the movement, the memo.
pub open spec fn transfer_instructions(
    asset: Asset,
    from: Seq<u8>,
    source: Seq<u8>,
    destination: Seq<u8>,
    amount: u64,
    memo: Seq<u8>,
    price: u64,
) -> Seq<InstructionView> {
    seq![
        compute_unit_limit_instruction(asset.unit_limit()),
        compute_unit_price_instruction(price),
        movement_instruction(asset, from, source, destination, amount),
        annotation_instruction(asset, from, memo),
    ]
}

/// What building a transfer comes to. `fetched` is the checkpoint hash that
/// was fetched for this request, or why there is none; `base_units` is the
/// amount in base units, or nothing where the amount is not a number. The
/// steps fail in this order: the fetch, the sender, the recipient, the token
/// accounts, the amount, the note, the encoding.
pub open spec fn transfer_outcome(
    asset: Asset,
    request: TransferRequestView,
    fetched: Result<Seq<u8>, Seq<char>>,
    base_units: Option<u64>,
) -> Result<BuiltTransferView, BuildErrorView> {
    match fetched {
        Err(reason) => Err(BuildErrorView::NetworkUnavailable(reason)),
        Ok(blockhash) => match key_of_text(request.from_address) {
            Err(_) => Err(BuildErrorView::InvalidFromAddress),
            Ok(from) => match key_of_text(request.to_address) {
                Err(_) => Err(BuildErrorView::InvalidToAddress),
                Ok(to) => match transfer_accounts(asset, from, to) {
                    Err(e) => Err(e),
                    Ok((source, destination)) => match base_units {
                        None => Err(BuildErrorView::InvalidAmount),
                        Some(amount) => if !note_fits(request.notes) {
                            Err(
                                BuildErrorView::NoteTooLong(
                                    note_too_long_text(note_len(request.notes)),
                                ),
                            )
                        } else {
                            let memo = memo_text(
                                asset.symbol_text(),
                                request.from_address,
                                request.to_address,
                                amount,
                                request.yid,
                                note_or_empty(request.notes),
                            );
                            let instructions = transfer_instructions(
                                asset,
                                from,
                                source,
                                destination,
                                amount,
                                encode_utf8(memo),
                                asset.unit_price(request.fee_amount),
                            );
                            match unsigned_wire(instructions, from, blockhash) {
                                Err(_) => Err(BuildErrorView::Serialize),
                                Ok(bytes) => Ok(
                                    BuiltTransferView {
                                        transaction: base64_text(bytes),
                                        blockhash: text_of_hash(blockhash),
                                        from: request.from_address,
                                        to: request.to_address,
                                        amount: request.amount,
                                        yid: request.yid,
                                        memo,
                                        network: request.network,
                                    },
                                ),
                            }
                        },
                    },
                },
            },
        },
    }
}

/// The views of the two sides of a fetch.
pub open spec fn fetched_view(fetched: Result<Blockhash, String>) -> Result<Seq<u8>, Seq<char>> {
    match fetched {
        Ok(hash) => Ok(hash@),
        Err(reason) => Err(reason@),
    }
}

/// The views of the two sides of a build.
pub open spec fn build_view(r: Result<BuiltTransfer, BuildError>) -> Result<
    BuiltTransferView,
    BuildErrorView,
> {
    match r {
        Ok(built) => Ok(built@),
        Err(e) => Err(e@),
    }
}

/// The views of the two sides of a pair of accounts.
pub open spec fn accounts_view(r: Result<(AccountKey, AccountKey), BuildError>) -> Result<
    (Seq<u8>, Seq<u8>),
    BuildErrorView,
> {
    match r {
        Ok((source, destination)) => Ok((source@, destination@)),
        Err(e) => Err(e@),
    }
}

/// Finds the two accounts that the transfer instruction moves the asset
/// between.
pub fn resolve_transfer_accounts(asset: Asset, from: &AccountKey, to: &AccountKey) -> (r: Result<
    (AccountKey, AccountKey),
    BuildError,
>)
    ensures
        accounts_view(r) == transfer_accounts(asset, from@, to@),
{
    match asset.mint() {
        None => Ok((*from, *to)),
        Some(mint_text) => match string_to_pub_key(mint_text) {
            Err(_) => Err(BuildError::InvalidMint(asset)),
            Ok(mint) => match get_associated_token_address(from, &mint) {
                None => Err(BuildError::NoTokenAccount),
                Some(source) => match get_associated_token_address(to, &mint) {
                    None => Err(BuildError::NoTokenAccount),
                    Some(destination) => Ok((source, destination)),
                },
            },
        },
    }
}

/// Lists the instructions of a transfer in their order.
pub fn build_instructions(
    asset: Asset,
    from: &AccountKey,
    source: &AccountKey,
    destination: &AccountKey,
    amount: u64,
    memo_bytes: &[u8],
    price: u64,
) -> (instructions: Vec<Instruction>)
    ensures
        instruction_views(instructions@) == transfer_instructions(
            asset,
            from@,
            source@,
            destination@,
            amount,
            memo_bytes@,
            price,
        ),
        fits_message(instructions@),
{
    let limit = set_compute_unit_limit(asset.compute_unit_limit());
    let unit_price = set_compute_unit_price(price);
    let mut sender: Vec<AccountKey> = Vec::new();
    sender.push(*from);
    let nobody: Vec<AccountKey> = Vec::new();
    assert(key_views(sender@) =~= seq![from@]);
    assert(key_views(nobody@) =~= Seq::<Seq<u8>>::empty());
    let movement = match asset {
        Asset::Sol => system_transfer(source, destination, amount),
        Asset::Usdc => token_transfer(source, destination, from, &sender, amount).unwrap(),
        Asset::Usdt => token_transfer(source, destination, from, &nobody, amount).unwrap(),
    };
    let annotation = match asset {
        Asset::Usdt => record_memo(memo_bytes, &sender),
        _ => record_memo(memo_bytes, &nobody),
    };
    let mut instructions: Vec<Instruction> = Vec::new();
    instructions.push(limit);
    instructions.push(unit_price);
    instructions.push(movement);
    instructions.push(annotation);
    assert(instruction_views(instructions@) =~= transfer_instructions(
        asset,
        from@,
        source@,
        destination@,
        amount,
        memo_bytes@,
        price,
    ));
    assert forall|i: int| 0 <= i < instructions@.len() implies (#[trigger] instructions@[i]).accounts@.len()
        <= 12 by {
        assert(instructions@[i]@.accounts.len() == instructions@[i].accounts@.len());
    }
    instructions
}

/// Builds the unsigned transfer of `asset` that `request` asks for, bound to
/// the checkpoint hash that was fetched for it. The sender pays the fee; no
/// key material is touched.
pub fn build_transfer(
    asset: Asset,
    request: &TransferRequest,
    fetched: Result<Blockhash, String>,
    base_units: Option<u64>,
) -> (r: Result<BuiltTransfer, BuildError>)
    ensures
        build_view(r) == transfer_outcome(asset, request@, fetched_view(fetched), base_units),
{
    let blockhash = match fetched {
        Ok(hash) => hash,
        Err(reason) => {
            return Err(BuildError::NetworkUnavailable(reason));
        },
    };
    let from = match string_to_pub_key(request.from_address.as_str()) {
        Ok(key) => key,
        Err(_) => {
            return Err(BuildError::InvalidFromAddress);
        },
    };
    let to = match string_to_pub_key(request.to_address.as_str()) {
        Ok(key) => key,
        Err(_) => {
            return Err(BuildError::InvalidToAddress);
        },
    };
    let (source, destination) = match resolve_transfer_accounts(asset, &from, &to) {
        Ok(pair) => pair,
        Err(e) => {
            return Err(e);
        },
    };
    let amount = match base_units {
        Some(amount) => amount,
        None => {
            return Err(BuildError::InvalidAmount);
        },
    };
    let memo = match build_memo(
        asset.symbol(),
        request.from_address.as_str(),
        request.to_address.as_str(),
        amount,
        request.yid.as_str(),
        opt_as_str(&request.notes),
    ) {
        Ok(memo) => memo,
        Err(text) => {
            return Err(BuildError::NoteTooLong(text));
        },
    };
    let price = asset.compute_unit_price(opt_as_str(&request.fee_amount));
    let instructions = build_instructions(
        asset,
        &from,
        &source,
        &destination,
        amount,
        memo.as_str().as_bytes(),
        price,
    );
    let bytes = match compile_unsigned(&instructions, &from, &blockhash) {
        Ok(bytes) => bytes,
        Err(_) => {
            return Err(BuildError::Serialize);
        },
    };
    Ok(
        BuiltTransfer {
            transaction: base64_encode(bytes.as_slice()),
            blockhash: blockhash.to_text(),
            from: request.from_address.clone(),
            to: request.to_address.clone(),
            amount: request.amount.clone(),
            yid: request.yid.clone(),
            memo,
            network: request.network.clone(),
        },
    )
}

/// Builds an unsigned transfer of the native coin.
pub fn build_transfer_sol(
    request: &TransferRequest,
    fetched: Result<Blockhash, String>,
    lamports: Option<u64>,
) -> (r: Result<BuiltTransfer, BuildError>)
    ensures
        build_view(r) == transfer_outcome(Asset::Sol, request@, fetched_view(fetched), lamports),
{
    build_transfer(Asset::Sol, request, fetched, lamports)
}

/// Builds an unsigned transfer of USDC.
pub fn build_transfer_usdc(
    request: &TransferRequest,
    fetched: Result<Blockhash, String>,
    base_units: Option<u64>,
) -> (r: Result<BuiltTransfer, BuildError>)
    ensures
        build_view(r) == transfer_outcome(Asset::Usdc, request@, fetched_view(fetched), base_units),
{
    build_transfer(Asset::Usdc, request, fetched, base_units)
}

/// Builds an unsigned transfer of USDT.
pub fn build_transfer_usdt(
    request: &TransferRequest,
    fetched: Result<Blockhash, String>,
    base_units: Option<u64>,
) -> (r: Result<BuiltTransfer, BuildError>)
    ensures
        build_view(r) == transfer_outcome(Asset::Usdt, request@, fetched_view(fetched), base_units),
{
    build_transfer(Asset::Usdt, request, fetched, base_units)
}

/// The instruction is the directive that caps the compute units.
pub open spec fn is_compute_limit(instruction: InstructionView) -> bool {
    instruction.program_id == COMPUTE_BUDGET_PROGRAM_ID@
        && instruction.data.len() > 0 && instruction.data[0] == 2
}

/// The instruction is the directive that sets the price per compute unit.
pub open spec fn is_compute_price(instruction: InstructionView) -> bool {
    instruction.program_id == COMPUTE_BUDGET_PROGRAM_ID@
        && instruction.data.len() > 0 && instruction.data[0] == 3
}

/// The instruction moves the asset: it runs under the system program for
/// the native coin and under the token program for a token.
pub open spec fn is_movement(asset: Asset, instruction: InstructionView) -> bool {
    match asset {
        Asset::Sol => instruction.program_id == SYSTEM_PROGRAM_ID@,
        _ => instruction.program_id == TOKEN_PROGRAM_ID@,
    }
}

/// The instruction records the memo.
pub open spec fn is_memo(instruction: InstructionView, memo: Seq<u8>) -> bool {
    instruction.program_id == MEMO_PROGRAM_ID@ && instruction.data == memo
}

/// Whether a transfer was built from exactly these instructions for this
/// payer and checkpoint hash.
pub open spec fn built_from(
    built: BuiltTransferView,
    instructions: Seq<InstructionView>,
    payer: Seq<u8>,
    blockhash: Seq<u8>,
) -> bool {
    exists|bytes: Seq<u8>|
        unsigned_wire(instructions, payer, blockhash) == Ok::<Seq<u8>, Seq<char>>(bytes)
            && built.transaction == base64_text(bytes)
}

/// In every transfer that is built, for each of the three assets, the
/// transaction is made of four instructions in this order: the compute
/// limit, the compute price, the movement of the asset, the memo. The memo
/// instruction carries the memo of the response, and the sender pays the
/// fee.
pub proof fn law_instruction_order(
    asset: Asset,
    request: TransferRequestView,
    blockhash: Seq<u8>,
    base_units: Option<u64>,
)
    requires
        transfer_outcome(asset, request, Ok(blockhash), base_units) is Ok,
    ensures
        ({
            let built = transfer_outcome(asset, request, Ok(blockhash), base_units)->Ok_0;
            exists|instructions: Seq<InstructionView>, sender: Seq<u8>|
                {
                    &&& key_of_text(request.from_address) == Ok::<Seq<u8>, ParseError>(sender)
                    &&& #[trigger] built_from(built, instructions, sender, blockhash)
                    &&& instructions.len() == 4
                    &&& is_compute_limit(instructions[0])
                    &&& is_compute_price(instructions[1])
                    &&& is_movement(asset, instructions[2])
                    &&& is_memo(instructions[3], encode_utf8(built.memo))
                }
        }),
{
    let built = transfer_outcome(asset, request, Ok(blockhash), base_units)->Ok_0;
    let sender = key_of_text(request.from_address)->Ok_0;
    let to = key_of_text(request.to_address)->Ok_0;
    let (source, destination) = transfer_accounts(asset, sender, to)->Ok_0;
    let amount = base_units->0;
    let instructions = transfer_instructions(
        asset,
        sender,
        source,
        destination,
        amount,
        encode_utf8(built.memo),
        asset.unit_price(request.fee_amount),
    );
    assert(built_from(built, instructions, sender, blockhash));
}

/// Building the same request twice on the same checkpoint hash gives the
/// same outcome, character for character.
pub proof fn law_same_inputs_same_transfer(
    asset: Asset,
    first: TransferRequest,
    second: TransferRequest,
    fetched: Result<Blockhash, String>,
    refetched: Result<Blockhash, String>,
    base_units: Option<u64>,
    built: Result<BuiltTransfer, BuildError>,
    rebuilt: Result<BuiltTransfer, BuildError>,
)
    requires
        first@ == second@,
        fetched_view(fetched) == fetched_view(refetched),
        build_view(built) == transfer_outcome(asset, first@, fetched_view(fetched), base_units),
        build_view(rebuilt) == transfer_outcome(
            asset,
            second@,
            fetched_view(refetched),
            base_units,
        ),
    ensures
        build_view(built) == build_view(rebuilt),
{
}

/// Two transfers built from the same request on two checkpoint hashes
/// differ in nothing but the hash: the memo and the echoed fields are the
/// same, and the two transactions encode the same instructions for the
/// same payer.
pub proof fn law_hash_is_the_only_difference(
    asset: Asset,
    request: TransferRequestView,
    one: Seq<u8>,
    other: Seq<u8>,
    base_units: Option<u64>,
)
    requires
        transfer_outcome(asset, request, Ok(one), base_units) is Ok,
        transfer_outcome(asset, request, Ok(other), base_units) is Ok,
    ensures
        ({
            let a = transfer_outcome(asset, request, Ok(one), base_units)->Ok_0;
            let b = transfer_outcome(asset, request, Ok(other), base_units)->Ok_0;
            &&& a.memo == b.memo
            &&& a.from == b.from
            &&& a.to == b.to
            &&& a.amount == b.amount
            &&& a.yid == b.yid
            &&& a.network == b.network
            &&& a.blockhash == text_of_hash(one)
            &&& b.blockhash == text_of_hash(other)
            &&& exists|instructions: Seq<InstructionView>, payer: Seq<u8>| #[trigger]
                built_from(a, instructions, payer, one) && built_from(
                    b,
                    instructions,
                    payer,
                    other,
                )
        }),
{
    let a = transfer_outcome(asset, request, Ok(one), base_units)->Ok_0;
    let b = transfer_outcome(asset, request, Ok(other), base_units)->Ok_0;
    let sender = key_of_text(request.from_address)->Ok_0;
    let to = key_of_text(request.to_address)->Ok_0;
    let (source, destination) = transfer_accounts(asset, sender, to)->Ok_0;
    let instructions = transfer_instructions(
        asset,
        sender,
        source,
        destination,
        base_units->0,
        encode_utf8(a.memo),
        asset.unit_price(request.fee_amount),
    );
    assert(built_from(a, instructions, sender, one));
}

/// A request whose amount is not a number is refused as such, once the
/// checkpoint hash is there and both addresses and the token accounts are
/// in order; a failed fetch is reported before anything else is looked at.
pub proof fn law_rejection_order(
    asset: Asset,
    request: TransferRequestView,
    reason: Seq<char>,
    base_units: Option<u64>,
)
    ensures
        transfer_outcome(asset, request, Err(reason), base_units) == Err::<
            BuiltTransferView,
            BuildErrorView,
        >(BuildErrorView::NetworkUnavailable(reason)),
        forall|blockhash: Seq<u8>|
            #![trigger transfer_outcome(asset, request, Ok(blockhash), None)]
            key_of_text(request.from_address) is Ok && key_of_text(request.to_address) is Ok
                && transfer_accounts(
                asset,
                key_of_text(request.from_address)->Ok_0,
                key_of_text(request.to_address)->Ok_0,
            ) is Ok ==> transfer_outcome(asset, request, Ok(blockhash), None) == Err::<
                BuiltTransferView,
                BuildErrorView,
            >(BuildErrorView::InvalidAmount),
{
}

} // verus!
