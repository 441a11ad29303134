//! The payment that answers a "payment required" response: which offer is
//! taken, and the signed transfer that is attached to the retried request.

use crate::asset::{
    associated_address, get_associated_token_address, usdc_mint, usdc_mint_address,
};
use crate::instruction::{
    compute_unit_limit_instruction, compute_unit_price_instruction, instruction_views, key_views,
    set_compute_unit_limit, set_compute_unit_price, token_transfer_checked,
    token_transfer_checked_instruction, Instruction, InstructionView, TOKEN_PROGRAM_ID,
};
use crate::keys::{hash_of_text, key_of_text, string_to_pub_key, AccountKey, Blockhash};
use crate::text::{joined, parse_u64, parsed_u64, text_eq};
use crate::wallet::Credential;
use crate::wire::{
    base64_encode, base64_text, compile_unsigned, fits_message, partial_sign, signed_wire,
    unsigned_wire, SignFailure, SignFailureView,
};
use vstd::prelude::*;
use vstd::string::*;
use vstd::utf8::encode_utf8;

verus! {

/// The compute units that a payment may use.
pub const PAYMENT_UNIT_LIMIT: u32 = 300_000;

/// The price per compute unit of a payment.
pub const PAYMENT_UNIT_PRICE: u64 = 5_000;

/// One way to pay that the remote party offers.
#[derive(Clone, Debug, PartialEq, Eq)]
pub struct PaymentRequirement {
    pub asset: String,
    /// The payee's address.
    pub pay_to: String,
    /// The amount to pay, in base units, in decimal.
    pub max_amount_required: String,
    /// The network the payment is made on.
    pub network: String,
    pub scheme: String,
    /// The address that pays the fee: the remote party's, not the payer's.
    pub fee_payer: String,
    /// The number of decimal places of the asset.
    pub decimals: u8,
    /// The checkpoint hash that the remote party binds the payment to.
    pub recent_blockhash: String,
}

/// A payment ready to be attached to the retried request.
#[derive(Clone, Debug, PartialEq, Eq)]
pub struct Payment {
    /// The value of the payment header.
    pub header: String,
    /// The amount paid, in base units.
    pub amount: u64,
    pub recipient: String,
    pub fee_payer: String,
}

/// What a [`Payment`] holds.
pub struct PaymentView {
    pub header: Seq<char>,
    pub amount: u64,
    pub recipient: Seq<char>,
    pub fee_payer: Seq<char>,
}

impl View for Payment {
    type V = PaymentView;

    open spec fn view(&self) -> PaymentView {
        PaymentView {
            header: self.header@,
            amount: self.amount,
            recipient: self.recipient@,
            fee_payer: self.fee_payer@,
        }
    }
}

/// Why no payment was made.
#[derive(Clone, Debug, PartialEq, Eq)]
pub enum PaymentError {
    /// The local address is malformed.
    InvalidWalletAddress,
    /// The payee's address is malformed.
    InvalidRecipient,
    /// The fee payer's address is malformed.
    InvalidFeePayer,
    /// The mint of the token is malformed.
    InvalidMint,
    /// The checkpoint hash is malformed.
    InvalidBlockhash,
    /// The amount is not a whole number of base units.
    InvalidAmount,
    /// No token account could be derived for one of the two parties.
    NoTokenAccount,
    /// The local key material is not a keypair.
    InvalidKey,
    /// The local key could not sign; the text says why.
    Signing(String),
    /// The transaction could not be encoded; the text says why.
    Serialize(String),
}

/// What a [`PaymentError`] holds.
pub enum PaymentErrorView {
    InvalidWalletAddress,
    InvalidRecipient,
    InvalidFeePayer,
    InvalidMint,
    InvalidBlockhash,
    InvalidAmount,
    NoTokenAccount,
    InvalidKey,
    Signing(Seq<char>),
    Serialize(Seq<char>),
}

impl View for PaymentError {
    type V = PaymentErrorView;

    open spec fn view(&self) -> PaymentErrorView {
        match self {
            PaymentError::InvalidWalletAddress => PaymentErrorView::InvalidWalletAddress,
            PaymentError::InvalidRecipient => PaymentErrorView::InvalidRecipient,
            PaymentError::InvalidFeePayer => PaymentErrorView::InvalidFeePayer,
            PaymentError::InvalidMint => PaymentErrorView::InvalidMint,
            PaymentError::InvalidBlockhash => PaymentErrorView::InvalidBlockhash,
            PaymentError::InvalidAmount => PaymentErrorView::InvalidAmount,
            PaymentError::NoTokenAccount => PaymentErrorView::NoTokenAccount,
            PaymentError::InvalidKey => PaymentErrorView::InvalidKey,
            PaymentError::Signing(text) => PaymentErrorView::Signing(text@),
            PaymentError::Serialize(text) => PaymentErrorView::Serialize(text@),
        }
    }
}

impl PaymentError {
    /// What the caller is told.
    pub open spec fn message_text(&self) -> Seq<char> {
        match self {
            PaymentError::InvalidWalletAddress => "Invalid wallet address"@,
            PaymentError::InvalidRecipient => "Invalid recipient address"@,
            PaymentError::InvalidFeePayer => "Invalid fee payer address in Solana payment requirement"@,
            PaymentError::InvalidMint => "Invalid USDC mint"@,
            PaymentError::InvalidBlockhash => "Invalid blockhash format in Solana payment requirement"@,
            PaymentError::InvalidAmount => "Invalid payment amount"@,
            PaymentError::NoTokenAccount => "Failed to derive token account"@,
            PaymentError::InvalidKey => "Invalid wallet key"@,
            PaymentError::Signing(reason) => "Failed to sign transaction: "@ + reason@,
            PaymentError::Serialize(reason) => "Failed to serialize transaction: "@ + reason@,
        }
    }

    /// What the caller is told.
    pub fn message(&self) -> (text: String)
        ensures
            text@ == self.message_text(),
    {
        match self {
            PaymentError::InvalidWalletAddress => String::from_str("Invalid wallet address"),
            PaymentError::InvalidRecipient => String::from_str("Invalid recipient address"),
            PaymentError::InvalidFeePayer => String::from_str(
                "Invalid fee payer address in Solana payment requirement",
            ),
            PaymentError::InvalidMint => String::from_str("Invalid USDC mint"),
            PaymentError::InvalidBlockhash => String::from_str(
                "Invalid blockhash format in Solana payment requirement",
            ),
            PaymentError::InvalidAmount => String::from_str("Invalid payment amount"),
            PaymentError::NoTokenAccount => String::from_str("Failed to derive token account"),
            PaymentError::InvalidKey => String::from_str("Invalid wallet key"),
            PaymentError::Signing(reason) => joined("Failed to sign transaction: ", reason.as_str()),
            PaymentError::Serialize(reason) => joined(
                "Failed to serialize transaction: ",
                reason.as_str(),
            ),
        }
    }
}

/// Whether a network tag names the network that payments are made on.
pub open spec fn is_payment_network(tag: Seq<char>) -> bool {
    tag == "solana"@ || tag == "solana-mainnet-beta"@
}

/// Whether `at` is the place of the first offer on the payment network.
pub open spec fn is_first_offer(offers: Seq<PaymentRequirement>, at: int) -> bool {
    &&& 0 <= at < offers.len()
    &&& is_payment_network(offers[at].network@)
    &&& forall|j: int| 0 <= j < at ==> !is_payment_network(#[trigger] offers[j].network@)
}

/// Whether no offer is on the payment network.
pub open spec fn no_offer(offers: Seq<PaymentRequirement>) -> bool {
    forall|j: int| 0 <= j < offers.len() ==> !is_payment_network(#[trigger] offers[j].network@)
}

/// The instructions of a payment, in the order in which they stand in the
/// transaction: the compute limit, the compute price, the checked transfer
/// that the payer signs.
pub open spec fn payment_instructions(
    payer: Seq<u8>,
    mint: Seq<u8>,
    source: Seq<u8>,
    destination: Seq<u8>,
    amount: u64,
    decimals: u8,
) -> Seq<InstructionView> {
    seq![
        compute_unit_limit_instruction(PAYMENT_UNIT_LIMIT),
        compute_unit_price_instruction(PAYMENT_UNIT_PRICE),
        token_transfer_checked_instruction(
            source,
            mint,
            destination,
            payer,
            seq![payer],
            amount,
            decimals,
        ),
    ]
}

/// The document that carries a signed transaction, given in base64, to the
/// remote party.
pub open spec fn payment_payload_text(transaction: Seq<char>) -> Seq<char> {
    "{\"network\":\"solana-mainnet-beta\",\"payload\":{\"transaction\":\""@ + transaction
        + "\"},\"scheme\":\"exact\",\"x402Version\":1}"@
}

/// The value of the payment header for a signed transaction: the base64 of
/// the payload document.
pub open spec fn payment_header_text(signed: Seq<u8>) -> Seq<char> {
    base64_text(encode_utf8(payment_payload_text(base64_text(signed))))
}

/// What a signing failure is reported as.
pub open spec fn sign_error(failure: SignFailureView) -> PaymentErrorView {
    match failure {
        SignFailureView::InvalidKey => PaymentErrorView::InvalidKey,
        SignFailureView::Signer(text) => PaymentErrorView::Signing(text),
        SignFailureView::Encoding(text) => PaymentErrorView::Serialize(text),
    }
}

/// What paying an offer with a credential comes to. The fee payer and the
/// checkpoint hash are the remote party's; the local key signs for the
/// payer alone. The steps fail in this order: the local address, the payee,
/// the fee payer, the mint, the checkpoint hash, the amount, the token
/// accounts, the encoding, the signature.
pub open spec fn payment_outcome(
    offer: PaymentRequirement,
    address: Seq<char>,
    secret: Seq<u8>,
) -> Result<PaymentView, PaymentErrorView> {
    match key_of_text(address) {
        Err(_) => Err(PaymentErrorView::InvalidWalletAddress),
        Ok(payer) => match key_of_text(offer.pay_to@) {
            Err(_) => Err(PaymentErrorView::InvalidRecipient),
            Ok(payee) => match key_of_text(offer.fee_payer@) {
                Err(_) => Err(PaymentErrorView::InvalidFeePayer),
                Ok(fee_payer) => match key_of_text(usdc_mint_address()) {
                    Err(_) => Err(PaymentErrorView::InvalidMint),
                    Ok(mint) => match hash_of_text(offer.recent_blockhash@) {
                        Err(_) => Err(PaymentErrorView::InvalidBlockhash),
                        Ok(blockhash) => match parsed_u64(offer.max_amount_required@) {
                            None => Err(PaymentErrorView::InvalidAmount),
                            Some(amount) => match associated_address(
                                payer,
                                mint,
                                TOKEN_PROGRAM_ID@,
                            ) {
                                None => Err(PaymentErrorView::NoTokenAccount),
                                Some(source) => match associated_address(
                                    payee,
                                    mint,
                                    TOKEN_PROGRAM_ID@,
                                ) {
                                    None => Err(PaymentErrorView::NoTokenAccount),
                                    Some(destination) => match unsigned_wire(
                                        payment_instructions(
                                            payer,
                                            mint,
                                            source,
                                            destination,
                                            amount,
                                            offer.decimals,
                                        ),
                                        fee_payer,
                                        blockhash,
                                    ) {
                                        Err(text) => Err(PaymentErrorView::Serialize(text)),
                                        Ok(unsigned) => match signed_wire(unsigned, secret) {
                                            Err(failure) => Err(sign_error(failure)),
                                            Ok(signed) => Ok(
                                                PaymentView {
                                                    header: payment_header_text(signed),
                                                    amount,
                                                    recipient: offer.pay_to@,
                                                    fee_payer: offer.fee_payer@,
                                                },
                                            ),
                                        },
                                    },
                                },
                            },
                        },
                    },
                },
            },
        },
    }
}

/// The views of the two sides of a payment.
pub open spec fn payment_view(r: Result<Payment, PaymentError>) -> Result<
    PaymentView,
    PaymentErrorView,
> {
    match r {
        Ok(payment) => Ok(payment@),
        Err(e) => Err(e@),
    }
}

/// Picks the offer to pay: the first one on the payment network.
pub fn select_requirement(offers: &Vec<PaymentRequirement>) -> (r: Option<usize>)
    ensures
        match r {
            Some(at) => is_first_offer(offers@, at as int),
            None => no_offer(offers@),
        },
{
    let mut i: usize = 0;
    while i < offers.len()
        invariant
            i <= offers@.len(),
            forall|j: int| 0 <= j < i ==> !is_payment_network(#[trigger] offers@[j].network@),
        decreases offers@.len() - i,
    {
        let tag = offers[i].network.as_str();
        if text_eq(tag, "solana") || text_eq(tag, "solana-mainnet-beta") {
            return Some(i);
        }
        i = i + 1;
    }
    None
}

/// Lists the network of every offer, in order.
pub fn offered_networks(offers: &Vec<PaymentRequirement>) -> (networks: Vec<String>)
    ensures
        networks@.len() == offers@.len(),
        forall|j: int| 0 <= j < offers@.len() ==> networks@[j]@ == offers@[j].network@,
{
    let mut networks: Vec<String> = Vec::new();
    let mut i: usize = 0;
    while i < offers.len()
        invariant
            i <= offers@.len(),
            networks@.len() == i,
            forall|j: int| 0 <= j < i ==> networks@[j]@ == offers@[j].network@,
        decreases offers@.len() - i,
    {
        networks.push(offers[i].network.clone());
        i = i + 1;
    }
    networks
}

/// Lists the instructions of a payment in their order.
pub fn build_payment_instructions(
    payer: &AccountKey,
    mint: &AccountKey,
    source: &AccountKey,
    destination: &AccountKey,
    amount: u64,
    decimals: u8,
) -> (instructions: Vec<Instruction>)
    ensures
        instruction_views(instructions@) == payment_instructions(
            payer@,
            mint@,
            source@,
            destination@,
            amount,
            decimals,
        ),
        fits_message(instructions@),
{
    let limit = set_compute_unit_limit(PAYMENT_UNIT_LIMIT);
    let unit_price = set_compute_unit_price(PAYMENT_UNIT_PRICE);
    let mut signers: Vec<AccountKey> = Vec::new();
    signers.push(*payer);
    assert(key_views(signers@) =~= seq![payer@]);
    let transfer = token_transfer_checked(
        source,
        mint,
        destination,
        payer,
        &signers,
        amount,
        decimals,
    ).unwrap();
    let mut instructions: Vec<Instruction> = Vec::new();
    instructions.push(limit);
    instructions.push(unit_price);
    instructions.push(transfer);
    assert(instruction_views(instructions@) =~= payment_instructions(
        payer@,
        mint@,
        source@,
        destination@,
        amount,
        decimals,
    ));
    assert forall|i: int| 0 <= i < instructions@.len() implies (#[trigger] instructions@[i]).accounts@.len()
        <= 12 by {
        assert(instructions@[i]@.accounts.len() == instructions@[i].accounts@.len());
    }
    instructions
}

/// Renders the value of the payment header for a signed transaction.
pub fn payment_header(signed: &[u8]) -> (header: String)
    ensures
        header@ == payment_header_text(signed@),
{
    let transaction = base64_encode(signed);
    let mut payload = String::from_str(
        "{\"network\":\"solana-mainnet-beta\",\"payload\":{\"transaction\":\"",
    );
    payload.append(transaction.as_str());
    payload.append("\"},\"scheme\":\"exact\",\"x402Version\":1}");
    base64_encode(payload.as_str().as_bytes())
}

/// Pays an offer: builds the transfer that the offer asks for and signs it
/// with the local key. The signature covers the payer's part only; the fee
/// payer's is left for the remote party.
pub fn build_payment(offer: &PaymentRequirement, credential: &Credential) -> (r: Result<
    Payment,
    PaymentError,
>)
    ensures
        payment_view(r) == payment_outcome(*offer, credential.address@, credential.private_key@),
{
    let payer = match string_to_pub_key(credential.address.as_str()) {
        Ok(key) => key,
        Err(_) => {
            return Err(PaymentError::InvalidWalletAddress);
        },
    };
    let payee = match string_to_pub_key(offer.pay_to.as_str()) {
        Ok(key) => key,
        Err(_) => {
            return Err(PaymentError::InvalidRecipient);
        },
    };
    let fee_payer = match string_to_pub_key(offer.fee_payer.as_str()) {
        Ok(key) => key,
        Err(_) => {
            return Err(PaymentError::InvalidFeePayer);
        },
    };
    let mint = match string_to_pub_key(usdc_mint()) {
        Ok(key) => key,
        Err(_) => {
            return Err(PaymentError::InvalidMint);
        },
    };
    let blockhash = match Blockhash::parse(offer.recent_blockhash.as_str()) {
        Ok(hash) => hash,
        Err(_) => {
            return Err(PaymentError::InvalidBlockhash);
        },
    };
    let amount = match parse_u64(offer.max_amount_required.as_str()) {
        Some(amount) => amount,
        None => {
            return Err(PaymentError::InvalidAmount);
        },
    };
    let source = match get_associated_token_address(&payer, &mint) {
        Some(key) => key,
        None => {
            return Err(PaymentError::NoTokenAccount);
        },
    };
    let destination = match get_associated_token_address(&payee, &mint) {
        Some(key) => key,
        None => {
            return Err(PaymentError::NoTokenAccount);
        },
    };
    let instructions = build_payment_instructions(
        &payer,
        &mint,
        &source,
        &destination,
        amount,
        offer.decimals,
    );
    let unsigned = match compile_unsigned(&instructions, &fee_payer, &blockhash) {
        Ok(bytes) => bytes,
        Err(text) => {
            return Err(PaymentError::Serialize(text));
        },
    };
    let signed = match partial_sign(unsigned.as_slice(), credential.private_key.as_slice()) {
        Ok(bytes) => bytes,
        Err(SignFailure::InvalidKey) => {
            return Err(PaymentError::InvalidKey);
        },
        Err(SignFailure::Signer(text)) => {
            return Err(PaymentError::Signing(text));
        },
        Err(SignFailure::Encoding(text)) => {
            return Err(PaymentError::Serialize(text));
        },
    };
    Ok(
        Payment {
            header: payment_header(signed.as_slice()),
            amount,
            recipient: offer.pay_to.clone(),
            fee_payer: offer.fee_payer.clone(),
        },
    )
}

/// Whether a payment carries the transaction that is made of these
/// instructions, pays its fee from `fee_payer`, is bound to `blockhash` and
/// is signed with `secret`.
pub open spec fn paid_with(
    payment: PaymentView,
    instructions: Seq<InstructionView>,
    fee_payer: Seq<u8>,
    blockhash: Seq<u8>,
    secret: Seq<u8>,
) -> bool {
    match unsigned_wire(instructions, fee_payer, blockhash) {
        Ok(unsigned) => match signed_wire(unsigned, secret) {
            Ok(signed) => payment.header == payment_header_text(signed),
            Err(_) => false,
        },
        Err(_) => false,
    }
}

/// Every payment is made of three instructions in this order: the compute
/// limit of 300,000 units, the compute price of 5,000, the checked
/// transfer. Its fee is paid from the address that the offer names, it is
/// bound to the checkpoint hash that the offer names, and the local key has
/// signed it.
pub proof fn law_payment_is_bound_to_the_offer(
    offer: PaymentRequirement,
    address: Seq<char>,
    secret: Seq<u8>,
)
    requires
        payment_outcome(offer, address, secret) is Ok,
    ensures
        ({
            let payment = payment_outcome(offer, address, secret)->Ok_0;
            &&& parsed_u64(offer.max_amount_required@) == Some(payment.amount)
            &&& payment.recipient == offer.pay_to@
            &&& payment.fee_payer == offer.fee_payer@
            &&& exists|instructions: Seq<InstructionView>|
                {
                    &&& #[trigger] paid_with(
                        payment,
                        instructions,
                        key_of_text(offer.fee_payer@)->Ok_0,
                        hash_of_text(offer.recent_blockhash@)->Ok_0,
                        secret,
                    )
                    &&& instructions.len() == 3
                    &&& instructions[0] == compute_unit_limit_instruction(300_000)
                    &&& instructions[1] == compute_unit_price_instruction(5_000)
                    &&& instructions[2].program_id == TOKEN_PROGRAM_ID@
                    &&& instructions[2].data.len() > 0 && instructions[2].data[0] == 12
                }
        }),
{
    let payment = payment_outcome(offer, address, secret)->Ok_0;
    let payer = key_of_text(address)->Ok_0;
    let payee = key_of_text(offer.pay_to@)->Ok_0;
    let fee_payer = key_of_text(offer.fee_payer@)->Ok_0;
    let mint = key_of_text(usdc_mint_address())->Ok_0;
    let blockhash = hash_of_text(offer.recent_blockhash@)->Ok_0;
    let amount = parsed_u64(offer.max_amount_required@)->0;
    let source = associated_address(payer, mint, TOKEN_PROGRAM_ID@)->0;
    let destination = associated_address(payee, mint, TOKEN_PROGRAM_ID@)->0;
    let instructions = payment_instructions(
        payer,
        mint,
        source,
        destination,
        amount,
        offer.decimals,
    );
    assert(paid_with(payment, instructions, fee_payer, blockhash, secret));
}

} // verus!
