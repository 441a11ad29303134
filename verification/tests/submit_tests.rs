use base64::engine::general_purpose::STANDARD;
use base64::Engine;
use fuego::builder::{build_transfer_sol, TransferRequest};
use fuego::keys::Blockhash;
use fuego::submit::{
    broadcast_outcome, decode_transaction, read_compact_length, starts_with_version_marker,
    submit_transaction, submit_versioned_transaction, SubmitError, Submitted, WireFormat,
};
use solana_sdk::message::{v0, Message, VersionedMessage};
use solana_sdk::pubkey::Pubkey;
use solana_sdk::signature::Signature;
use solana_sdk::transaction::{Transaction, VersionedTransaction};

fn legacy_transaction() -> Transaction {
    let payer = Pubkey::new_from_array([1; 32]);
    let to = Pubkey::new_from_array([2; 32]);
    let transfer = solana_sdk::system_instruction::transfer(&payer, &to, 10);
    let hash = solana_sdk::hash::Hash::new_from_array([5; 32]);
    let mut tx = Transaction::new_unsigned(Message::new_with_blockhash(&[transfer], Some(&payer), &hash));
    tx.signatures = vec![Signature::from([7u8; 64])];
    tx
}

fn versioned_transaction() -> VersionedTransaction {
    let payer = Pubkey::new_from_array([1; 32]);
    let to = Pubkey::new_from_array([2; 32]);
    let transfer = solana_sdk::system_instruction::transfer(&payer, &to, 10);
    let hash = solana_sdk::hash::Hash::new_from_array([5; 32]);
    let message = v0::Message::try_compile(&payer, &[transfer], &[], hash).unwrap();
    VersionedTransaction {
        signatures: vec![Signature::from([7u8; 64])],
        message: VersionedMessage::V0(message),
    }
}

#[test]
fn legacy_transaction_is_forwarded_byte_for_byte() {
    let bytes = bincode::serialize(&legacy_transaction()).unwrap();
    let text = STANDARD.encode(&bytes);
    assert_eq!(submit_transaction(&text), Ok(bytes.clone()));
    let back: Transaction = bincode::deserialize(&submit_transaction(&text).unwrap()).unwrap();
    assert_eq!(back, legacy_transaction());
}

#[test]
fn built_transfer_can_be_submitted() {
    let request = TransferRequest {
        network: "devnet".to_string(),
        from_address: Pubkey::new_from_array([1; 32]).to_string(),
        to_address: Pubkey::new_from_array([2; 32]).to_string(),
        amount: "1".to_string(),
        yid: "y".to_string(),
        notes: None,
        fee_amount: None,
    };
    let built = build_transfer_sol(&request, Ok(Blockhash { bytes: [3; 32] }), Some(1)).unwrap();
    let bytes = submit_transaction(&built.transaction).unwrap();
    assert_eq!(STANDARD.encode(&bytes), built.transaction);
}

#[test]
fn text_that_is_no_base64_is_refused() {
    assert_eq!(submit_transaction("not base64!"), Err(SubmitError::InvalidBase64));
    assert_eq!(submit_versioned_transaction("%%%"), Err(SubmitError::InvalidBase64));
    assert_eq!(submit_transaction("QUJD="), Err(SubmitError::InvalidBase64));
}

#[test]
fn bytes_that_are_no_transaction_are_refused() {
    assert_eq!(submit_transaction(""), Err(SubmitError::InvalidTransaction));
    assert_eq!(submit_transaction(&STANDARD.encode(b"hello")), Err(SubmitError::InvalidTransaction));
    assert_eq!(
        submit_versioned_transaction(&STANDARD.encode(b"hello")),
        Err(SubmitError::InvalidTransaction)
    );
}

#[test]
fn versioned_blob_is_refused_by_the_legacy_path() {
    let bytes = bincode::serialize(&versioned_transaction()).unwrap();
    assert!(starts_with_version_marker(&bytes));
    let text = STANDARD.encode(&bytes);
    assert_eq!(submit_transaction(&text), Err(SubmitError::InvalidTransaction));
    assert_eq!(
        decode_transaction(WireFormat::Legacy, &text),
        Err(SubmitError::InvalidTransaction)
    );
}

#[test]
fn versioned_blob_is_taken_by_the_versioned_path() {
    let bytes = bincode::serialize(&versioned_transaction()).unwrap();
    let text = STANDARD.encode(&bytes);
    assert_eq!(submit_versioned_transaction(&text), Ok(bytes.clone()));
    let back: VersionedTransaction =
        bincode::deserialize(&submit_versioned_transaction(&text).unwrap()).unwrap();
    assert_eq!(back, versioned_transaction());
}

#[test]
fn marked_bytes_are_refused_by_the_legacy_path_whatever_follows() {
    let mut bytes = bincode::serialize(&legacy_transaction()).unwrap();
    assert!(!starts_with_version_marker(&bytes));
    assert!(submit_transaction(&STANDARD.encode(&bytes)).is_ok());
    bytes[65] |= 0x80;
    assert!(starts_with_version_marker(&bytes));
    assert_eq!(submit_transaction(&STANDARD.encode(&bytes)), Err(SubmitError::InvalidTransaction));
}

#[test]
fn version_marker_stands_behind_the_signatures() {
    assert!(!starts_with_version_marker(&[]));
    assert!(!starts_with_version_marker(&[0]));
    assert!(starts_with_version_marker(&[0, 0x80]));
    assert!(!starts_with_version_marker(&[0, 0x7f]));
    let mut one = vec![1u8];
    one.extend_from_slice(&[0xff; 64]);
    assert!(!starts_with_version_marker(&one));
    one.push(0x01);
    assert!(!starts_with_version_marker(&one));
    *one.last_mut().unwrap() = 0x80;
    assert!(starts_with_version_marker(&one));
}

#[test]
fn compact_lengths() {
    assert_eq!(read_compact_length(&[]), None);
    assert_eq!(read_compact_length(&[0]), Some((0, 1)));
    assert_eq!(read_compact_length(&[0x7f, 9]), Some((127, 1)));
    assert_eq!(read_compact_length(&[0x80]), None);
    assert_eq!(read_compact_length(&[0x80, 0x01]), Some((128, 2)));
    assert_eq!(read_compact_length(&[0xff, 0x7f]), Some((16383, 2)));
    assert_eq!(read_compact_length(&[0x80, 0x80, 0x01]), Some((16384, 3)));
    assert_eq!(read_compact_length(&[0xff, 0xff, 0x03]), Some((65535, 3)));
    assert_eq!(read_compact_length(&[0x80, 0x00]), None);
    assert_eq!(read_compact_length(&[0x80, 0x80, 0x00]), None);
    assert_eq!(read_compact_length(&[0xff, 0xff, 0x04]), None);
    assert_eq!(read_compact_length(&[0xff, 0xff, 0x83]), None);
}

#[test]
fn compact_lengths_are_those_of_the_network_library() {
    for n in [0usize, 1, 127, 128, 129, 255, 256, 16383, 16384, 65535] {
        let signatures = vec![Signature::default(); n];
        let tx = Transaction { signatures, message: Message::default() };
        let bytes = bincode::serialize(&tx).unwrap();
        let (value, taken) = read_compact_length(&bytes).unwrap();
        assert_eq!(value, n);
        assert_eq!(bytes.len(), taken + 64 * n + bincode::serialize(&Message::default()).unwrap().len());
    }
}

#[test]
fn accepted_broadcast_is_told_with_its_explorer_page() {
    let told = broadcast_outcome(WireFormat::Legacy, "devnet", Ok("5sig".to_string()));
    assert_eq!(
        told,
        Ok(Submitted {
            signature: "5sig".to_string(),
            explorer_link: "https://explorer.solana.com/tx/5sig?cluster=devnet".to_string(),
            network: "devnet".to_string(),
            format: WireFormat::Legacy,
        })
    );
    let told = broadcast_outcome(WireFormat::Versioned, "mainnet-beta", Ok("abc".to_string()));
    assert_eq!(told.unwrap().format.tag(), "versioned");
    assert_eq!(WireFormat::Legacy.tag(), "legacy");
}

#[test]
fn refused_broadcast_is_told_with_the_reason() {
    let told = broadcast_outcome(WireFormat::Legacy, "devnet", Err("blockhash not found".to_string()));
    assert_eq!(told, Err(SubmitError::Broadcast("blockhash not found".to_string())));
    assert_eq!(
        told.unwrap_err().message(),
        "Failed to submit transaction: blockhash not found"
    );
}

#[test]
fn decode_errors_have_their_messages() {
    assert_eq!(
        SubmitError::InvalidBase64.message(),
        "Failed to decode transaction - invalid base64"
    );
    assert_eq!(SubmitError::InvalidTransaction.message(), "Failed to deserialize transaction");
}

#[test]
fn legacy_blob_is_a_transaction_of_the_versioned_format_too() {
    let bytes = bincode::serialize(&legacy_transaction()).unwrap();
    let text = STANDARD.encode(&bytes);
    assert_eq!(decode_transaction(WireFormat::Versioned, &text), Ok(bytes));
}

#[test]
fn compact_lengths_are_read_as_the_network_library_reads_them() {
    let thirds = [0u8, 1, 2, 3, 4, 0x7f, 0x80, 0x81, 0x83, 0xff];
    for first in 0..=255u8 {
        assert_eq!(
            read_compact_length(&[first]),
            solana_sdk::short_vec::decode_shortu16_len(&[first]).ok()
        );
        for second in 0..=255u8 {
            assert_eq!(
                read_compact_length(&[first, second]),
                solana_sdk::short_vec::decode_shortu16_len(&[first, second]).ok()
            );
            for third in thirds {
                let bytes = [first, second, third, 0xaa];
                assert_eq!(
                    read_compact_length(&bytes),
                    solana_sdk::short_vec::decode_shortu16_len(&bytes).ok()
                );
            }
        }
    }
}
