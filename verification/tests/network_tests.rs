use fuego::network::{endpoint_for, explorer_link, get_commitment_config, Commitment};

#[test]
fn endpoint_of_known_networks() {
    assert_eq!(endpoint_for("devnet"), "https://api.devnet.solana.com");
    assert_eq!(endpoint_for("mainnet-beta"), "https://api.mainnet-beta.solana.com");
}

#[test]
fn endpoint_of_an_unknown_name_is_formed_all_the_same() {
    assert_eq!(endpoint_for("nowhere"), "https://api.nowhere.solana.com");
    assert_eq!(endpoint_for(""), "https://api..solana.com");
}

#[test]
fn explorer_link_names_signature_and_cluster() {
    assert_eq!(
        explorer_link("5sig", "devnet"),
        "https://explorer.solana.com/tx/5sig?cluster=devnet"
    );
}

#[test]
fn commitment_by_name() {
    assert_eq!(get_commitment_config(&Some("processed".to_string())), Commitment::Processed);
    assert_eq!(get_commitment_config(&Some("finalized".to_string())), Commitment::Finalized);
    assert_eq!(get_commitment_config(&Some("confirmed".to_string())), Commitment::Confirmed);
}

#[test]
fn commitment_defaults_to_confirmed() {
    assert_eq!(get_commitment_config(&None), Commitment::Confirmed);
    assert_eq!(get_commitment_config(&Some("Processed".to_string())), Commitment::Confirmed);
    assert_eq!(get_commitment_config(&Some("".to_string())), Commitment::Confirmed);
}
