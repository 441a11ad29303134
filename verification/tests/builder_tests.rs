use base64::engine::general_purpose::STANDARD;
use base64::Engine;
use fuego::asset::Asset;
use fuego::builder::{
    build_transfer, build_transfer_sol, build_transfer_usdc, build_transfer_usdt, BuildError,
    BuiltTransfer, TransferRequest,
};
use fuego::keys::Blockhash;
use solana_sdk::compute_budget::ComputeBudgetInstruction;
use solana_sdk::message::Message;
use solana_sdk::pubkey::Pubkey;
use solana_sdk::signature::Signature;
use solana_sdk::transaction::Transaction;
use std::str::FromStr;

const USDC_MINT: &str = "EPjFWdd5AufqSSqeM2qN1xzybapC8G4wEGGkZwyTDt1v";
const USDT_MINT: &str = "Es9vMFrzaCERmJfrF4H2FYD4KCoNkY11McCe8BenEqw";

fn sender() -> Pubkey {
    Pubkey::new_from_array([21; 32])
}

fn recipient() -> Pubkey {
    Pubkey::new_from_array([42; 32])
}

fn checkpoint() -> Blockhash {
    Blockhash { bytes: [9; 32] }
}

fn request(amount: &str) -> TransferRequest {
    TransferRequest {
        network: "devnet".to_string(),
        from_address: sender().to_string(),
        to_address: recipient().to_string(),
        amount: amount.to_string(),
        yid: "order-1".to_string(),
        notes: None,
        fee_amount: None,
    }
}

fn base_units(asset: Asset, amount: &str) -> Option<u64> {
    match amount.parse::<f64>() {
        Ok(value) => Some((value * asset.scale() as f64) as u64),
        Err(_) => None,
    }
}

fn decode(built: &BuiltTransfer) -> Transaction {
    let bytes = STANDARD.decode(&built.transaction).unwrap();
    bincode::deserialize(&bytes).unwrap()
}

fn program_of(tx: &Transaction, at: usize) -> Pubkey {
    tx.message.account_keys[tx.message.instructions[at].program_id_index as usize]
}

#[test]
fn amounts_scale_to_base_units() {
    assert_eq!(base_units(Asset::Usdc, "1.5"), Some(1_500_000));
    assert_eq!(base_units(Asset::Sol, "0.000000001"), Some(1));
    assert_eq!(base_units(Asset::Usdc, "2.50"), Some(2_500_000));
    assert_eq!(base_units(Asset::Usdt, "abc"), None);
}

#[test]
fn usdc_transfer_end_to_end() {
    let r = request("2.50");
    let built =
        build_transfer_usdc(&r, Ok(checkpoint()), base_units(Asset::Usdc, &r.amount)).unwrap();
    let memo = format!("fuego|USDC|f:{}|t:{}|a:2500000|yid:order-1|n:", sender(), recipient());
    assert_eq!(built.memo, memo);
    assert_eq!(built.from, r.from_address);
    assert_eq!(built.to, r.to_address);
    assert_eq!(built.amount, "2.50");
    assert_eq!(built.yid, "order-1");
    assert_eq!(built.network, "devnet");
    assert_eq!(built.blockhash, solana_sdk::hash::Hash::new_from_array([9; 32]).to_string());

    let tx = decode(&built);
    assert_eq!(tx.message.account_keys[0], sender());
    assert_eq!(tx.message.recent_blockhash.to_bytes(), [9; 32]);
    assert_eq!(tx.message.instructions.len(), 4);
    assert_eq!(tx.message.instructions[3].data, memo.as_bytes());
    assert_eq!(
        tx.signatures,
        vec![Signature::default(); tx.message.header.num_required_signatures as usize]
    );
}

#[test]
fn instructions_stand_in_order_for_every_asset() {
    for asset in [Asset::Sol, Asset::Usdc, Asset::Usdt] {
        let r = request("1");
        let built = build_transfer(asset, &r, Ok(checkpoint()), Some(1)).unwrap();
        let tx = decode(&built);
        assert_eq!(tx.message.instructions.len(), 4);
        assert_eq!(program_of(&tx, 0), solana_sdk::compute_budget::id());
        assert_eq!(tx.message.instructions[0].data[0], 2);
        assert_eq!(program_of(&tx, 1), solana_sdk::compute_budget::id());
        assert_eq!(tx.message.instructions[1].data[0], 3);
        let mover = match asset {
            Asset::Sol => solana_sdk::system_program::id(),
            _ => spl_token::id(),
        };
        assert_eq!(program_of(&tx, 2), mover);
        assert_eq!(program_of(&tx, 3), spl_memo::id());
        assert_eq!(tx.message.instructions[3].data, built.memo.as_bytes());
        assert_eq!(tx.message.account_keys[0], sender());
    }
}

#[test]
#[allow(deprecated)]
fn usdc_transaction_is_byte_for_byte_the_network_libraries() {
    let mut r = request("0.25");
    r.fee_amount = Some("1234".to_string());
    r.notes = Some("thanks".to_string());
    let built = build_transfer_usdc(&r, Ok(checkpoint()), Some(250_000)).unwrap();

    let mint = Pubkey::from_str(USDC_MINT).unwrap();
    let source = spl_associated_token_account::get_associated_token_address(&sender(), &mint);
    let destination =
        spl_associated_token_account::get_associated_token_address(&recipient(), &mint);
    let transfer = spl_token::instruction::transfer(
        &spl_token::ID,
        &source,
        &destination,
        &sender(),
        &[&sender()],
        250_000,
    )
    .unwrap();
    let memo = spl_memo::build_memo(built.memo.as_bytes(), &[]);
    let message = Message::new_with_blockhash(
        &[
            ComputeBudgetInstruction::set_compute_unit_limit(100_000),
            ComputeBudgetInstruction::set_compute_unit_price(1234),
            transfer,
            memo,
        ],
        Some(&sender()),
        &solana_sdk::hash::Hash::new_from_array([9; 32]),
    );
    let expected = bincode::serialize(&Transaction::new_unsigned(message)).unwrap();
    assert_eq!(built.transaction, STANDARD.encode(&expected));
    assert_eq!(
        built.memo,
        format!("fuego|USDC|f:{}|t:{}|a:250000|yid:order-1|n:thanks", sender(), recipient())
    );
}

#[test]
fn sol_transaction_is_byte_for_byte_the_network_libraries() {
    let r = request("1.5");
    let built = build_transfer_sol(&r, Ok(checkpoint()), Some(1_500_000_000)).unwrap();
    let memo = spl_memo::build_memo(built.memo.as_bytes(), &[]);
    let message = Message::new_with_blockhash(
        &[
            ComputeBudgetInstruction::set_compute_unit_limit(100_000),
            ComputeBudgetInstruction::set_compute_unit_price(0),
            solana_sdk::system_instruction::transfer(&sender(), &recipient(), 1_500_000_000),
            memo,
        ],
        Some(&sender()),
        &solana_sdk::hash::Hash::new_from_array([9; 32]),
    );
    let expected = bincode::serialize(&Transaction::new_unsigned(message)).unwrap();
    assert_eq!(built.transaction, STANDARD.encode(&expected));
    assert_eq!(
        built.memo,
        format!("fuego|SOL|f:{}|t:{}|a:1500000000|yid:order-1|n:", sender(), recipient())
    );
}

#[test]
#[allow(deprecated)]
fn usdt_transaction_is_byte_for_byte_the_network_libraries() {
    let r = request("3");
    let built = build_transfer_usdt(&r, Ok(checkpoint()), Some(3_000_000)).unwrap();

    let mint = Pubkey::from_str(USDT_MINT).unwrap();
    let source = spl_associated_token_account::get_associated_token_address(&sender(), &mint);
    let destination =
        spl_associated_token_account::get_associated_token_address(&recipient(), &mint);
    let transfer = spl_token::instruction::transfer(
        &spl_token::id(),
        &source,
        &destination,
        &sender(),
        &[],
        3_000_000,
    )
    .unwrap();
    let memo = spl_memo::build_memo(built.memo.as_bytes(), &[&sender()]);
    let message = Message::new_with_blockhash(
        &[
            ComputeBudgetInstruction::set_compute_unit_limit(300_000),
            ComputeBudgetInstruction::set_compute_unit_price(100),
            transfer,
            memo,
        ],
        Some(&sender()),
        &solana_sdk::hash::Hash::new_from_array([9; 32]),
    );
    let expected = bincode::serialize(&Transaction::new_unsigned(message)).unwrap();
    assert_eq!(built.transaction, STANDARD.encode(&expected));
    assert_eq!(
        built.memo,
        format!("fuego|USDT|f:{}|t:{}|a:3000000|yid:order-1|n:", sender(), recipient())
    );
}

#[test]
fn same_request_and_hash_give_the_same_bytes() {
    let r = request("2.50");
    let first = build_transfer_usdc(&r, Ok(checkpoint()), Some(2_500_000));
    let second = build_transfer_usdc(&r.clone(), Ok(checkpoint()), Some(2_500_000));
    assert!(first.is_ok());
    assert_eq!(first, second);
}

#[test]
fn another_hash_changes_the_hash_and_nothing_else() {
    let r = request("2.50");
    let first = build_transfer_usdc(&r, Ok(Blockhash { bytes: [1; 32] }), Some(5)).unwrap();
    let second = build_transfer_usdc(&r, Ok(Blockhash { bytes: [2; 32] }), Some(5)).unwrap();
    assert_ne!(first.transaction, second.transaction);
    assert_ne!(first.blockhash, second.blockhash);
    assert_eq!(first.memo, second.memo);
    let (mut a, mut b) = (decode(&first), decode(&second));
    assert_eq!(a.message.recent_blockhash.to_bytes(), [1; 32]);
    assert_eq!(b.message.recent_blockhash.to_bytes(), [2; 32]);
    a.message.recent_blockhash = solana_sdk::hash::Hash::default();
    b.message.recent_blockhash = solana_sdk::hash::Hash::default();
    assert_eq!(a, b);
}

#[test]
fn amount_that_is_no_number_is_refused() {
    let r = request("abc");
    let outcome = build_transfer_usdc(&r, Ok(checkpoint()), base_units(Asset::Usdc, &r.amount));
    assert_eq!(outcome, Err(BuildError::InvalidAmount));
    assert_eq!(outcome.unwrap_err().message(), "Invalid amount");
    let sol = build_transfer_sol(&r, Ok(checkpoint()), None);
    assert_eq!(sol.unwrap_err().message(), "Invalid amount");
    let usdt = build_transfer_usdt(&r, Ok(checkpoint()), None);
    assert_eq!(usdt.unwrap_err().message(), "Invalid amount");
}

#[test]
fn failed_fetch_is_reported_before_anything_else() {
    let mut r = request("abc");
    r.from_address = "nobody".to_string();
    let outcome = build_transfer_usdc(&r, Err("connection refused".to_string()), None);
    assert_eq!(outcome, Err(BuildError::NetworkUnavailable("connection refused".to_string())));
    assert_eq!(
        outcome.unwrap_err().message(),
        "Failed to fetch blockhash: connection refused"
    );
}

#[test]
fn malformed_sender_is_named() {
    let mut r = request("1");
    r.from_address = "not-an-address".to_string();
    r.to_address = "neither".to_string();
    let outcome = build_transfer_sol(&r, Ok(checkpoint()), Some(1));
    assert_eq!(outcome, Err(BuildError::InvalidFromAddress));
    assert_eq!(outcome.unwrap_err().message(), "Invalid from_address");
}

#[test]
fn malformed_recipient_is_named() {
    let mut r = request("abc");
    r.to_address = "neither".to_string();
    let outcome = build_transfer_usdt(&r, Ok(checkpoint()), None);
    assert_eq!(outcome, Err(BuildError::InvalidToAddress));
    assert_eq!(outcome.unwrap_err().message(), "Invalid to_address");
}

#[test]
fn long_note_fails_the_build_for_every_asset() {
    for asset in [Asset::Sol, Asset::Usdc, Asset::Usdt] {
        let mut r = request("1");
        r.notes = Some("seventeen letters".to_string());
        let outcome = build_transfer(asset, &r, Ok(checkpoint()), Some(1));
        let message = "Notes must be 16 characters or less, got 17".to_string();
        assert_eq!(outcome, Err(BuildError::NoteTooLong(message.clone())));
        assert_eq!(outcome.unwrap_err().message(), message);
    }
}

#[test]
fn note_of_sixteen_characters_is_built_in() {
    let mut r = request("1");
    r.notes = Some("sixteen letters!".to_string());
    let built = build_transfer_sol(&r, Ok(checkpoint()), Some(1)).unwrap();
    assert!(built.memo.ends_with("|n:sixteen letters!"));
    assert_eq!(decode(&built).message.instructions[3].data, built.memo.as_bytes());
}

#[test]
fn fee_price_of_the_request_is_built_in() {
    let mut r = request("1");
    r.fee_amount = Some("5000".to_string());
    let built = build_transfer_sol(&r, Ok(checkpoint()), Some(1)).unwrap();
    let tx = decode(&built);
    assert_eq!(tx.message.instructions[1].data, vec![3, 0x88, 0x13, 0, 0, 0, 0, 0, 0]);
    r.fee_amount = Some("fast".to_string());
    let built = build_transfer_sol(&r, Ok(checkpoint()), Some(1)).unwrap();
    assert_eq!(decode(&built).message.instructions[1].data, vec![3, 0, 0, 0, 0, 0, 0, 0, 0]);
}

#[test]
fn fee_price_of_a_usdt_request_is_built_in() {
    let mut r = request("1");
    r.fee_amount = Some("9999".to_string());
    let built = build_transfer_usdt(&r, Ok(checkpoint()), Some(1)).unwrap();
    assert_eq!(decode(&built).message.instructions[1].data, vec![3, 0x0f, 0x27, 0, 0, 0, 0, 0, 0]);
    r.fee_amount = None;
    let built = build_transfer_usdt(&r, Ok(checkpoint()), Some(1)).unwrap();
    assert_eq!(decode(&built).message.instructions[1].data, vec![3, 100, 0, 0, 0, 0, 0, 0, 0]);
}

#[test]
fn other_error_messages() {
    assert_eq!(BuildError::InvalidMint(Asset::Usdc).message(), "Invalid USDC mint");
    assert_eq!(BuildError::InvalidMint(Asset::Usdt).message(), "Invalid USDT mint");
    assert_eq!(BuildError::NoTokenAccount.message(), "Failed to derive token account");
    assert_eq!(BuildError::Serialize.message(), "Failed to serialize transaction");
}
