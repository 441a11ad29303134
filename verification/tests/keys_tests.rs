use fuego::keys::{
    string_to_pub_key, string_to_signature, AccountKey, Blockhash, ParseError,
};
use solana_sdk::pubkey::Pubkey;
use solana_sdk::signature::Signature;
use std::str::FromStr;

const USDC_MINT: &str = "EPjFWdd5AufqSSqeM2qN1xzybapC8G4wEGGkZwyTDt1v";

const USDC_MINT_BYTES: [u8; 32] = [
    198, 250, 122, 243, 190, 219, 173, 58, 61, 101, 243, 106, 171, 201, 116, 49, 177, 187, 228,
    194, 210, 246, 224, 228, 124, 166, 2, 3, 69, 47, 93, 97,
];

#[test]
fn key_is_read_from_its_text() {
    assert_eq!(string_to_pub_key(USDC_MINT), Ok(AccountKey { bytes: USDC_MINT_BYTES }));
}

#[test]
fn key_of_all_ones_is_all_zero_bytes() {
    assert_eq!(
        string_to_pub_key("11111111111111111111111111111111"),
        Ok(AccountKey { bytes: [0; 32] })
    );
}

#[test]
fn key_with_a_foreign_character_is_invalid() {
    assert_eq!(
        string_to_pub_key("0PjFWdd5AufqSSqeM2qN1xzybapC8G4wEGGkZwyTDt1v"),
        Err(ParseError::Invalid)
    );
    assert_eq!(
        string_to_pub_key("EPjFWdd5AufqSSqeM2qN1xzybapC8G4wEGGkZwyTDt1l"),
        Err(ParseError::Invalid)
    );
}

#[test]
fn key_of_the_wrong_length_is_refused() {
    assert_eq!(string_to_pub_key(""), Err(ParseError::WrongSize));
    assert_eq!(string_to_pub_key("abc"), Err(ParseError::WrongSize));
    assert_eq!(
        string_to_pub_key("EPjFWdd5AufqSSqeM2qN1xzybapC8G4wEGGkZwyTDt1vEPjFWdd5"),
        Err(ParseError::WrongSize)
    );
}

#[test]
fn key_is_what_the_network_library_reads() {
    for seed in [0u8, 1, 7, 200, 255] {
        let key = Pubkey::new_from_array([seed; 32]);
        assert_eq!(string_to_pub_key(&key.to_string()), Ok(AccountKey { bytes: [seed; 32] }));
    }
}

#[test]
fn key_is_not_the_text_handed_back() {
    let key = string_to_pub_key(USDC_MINT).unwrap();
    assert_ne!(&key.bytes[..], &USDC_MINT.as_bytes()[..32]);
}

#[test]
fn blockhash_is_read_from_its_text_and_written_back() {
    let text = solana_sdk::hash::Hash::new_from_array([3; 32]).to_string();
    let hash = Blockhash::parse(&text).unwrap();
    assert_eq!(hash, Blockhash { bytes: [3; 32] });
    assert_eq!(hash.to_text(), text);
}

#[test]
fn blockhash_text_is_base58() {
    assert_eq!(Blockhash { bytes: [0; 32] }.to_text(), "11111111111111111111111111111111");
    assert_eq!(Blockhash { bytes: USDC_MINT_BYTES }.to_text(), USDC_MINT);
}

#[test]
fn malformed_blockhash_is_refused() {
    assert_eq!(Blockhash::parse("not a hash"), Err(ParseError::Invalid));
    assert_eq!(Blockhash::parse("abc"), Err(ParseError::WrongSize));
}

#[test]
fn signature_is_read_from_its_text() {
    let signature = Signature::from([9u8; 64]);
    let read = string_to_signature(&signature.to_string()).unwrap();
    assert_eq!(read.bytes, [9u8; 64]);
    assert_eq!(Signature::from_str(&signature.to_string()).unwrap(), signature);
}

#[test]
fn malformed_signature_is_refused() {
    assert_eq!(string_to_signature("abc").map(|s| s.bytes.len()), Err(ParseError::WrongSize));
    assert_eq!(string_to_signature("0OIl").map(|s| s.bytes.len()), Err(ParseError::Invalid));
    assert_eq!(
        string_to_signature(USDC_MINT).map(|s| s.bytes.len()),
        Err(ParseError::WrongSize)
    );
}

#[test]
fn unusual_texts_are_refused_and_never_more() {
    let long = "1".repeat(5000);
    for text in ["\u{65e5}\u{672c}\u{8a9e}", "\u{00e9}", " ", "\n", "\0", long.as_str()] {
        assert!(string_to_pub_key(text).is_err());
        assert!(Blockhash::parse(text).is_err());
        assert!(string_to_signature(text).is_err());
    }
}
