use dao_proposal_single_instant::crypto::{
    compute_sha256_hash, create_adr36_message, derive_addr_from_pubkey, signature_verifies,
};
use dao_proposal_single_instant::error::ContractError;

fn hex(bytes: &[u8]) -> String {
    let mut out = String::new();
    for b in bytes {
        out.push_str(&format!("{:02x}", b));
    }
    out
}

#[test]
fn sha256_of_abc() {
    let digest = compute_sha256_hash(b"abc");
    assert_eq!(
        hex(&digest),
        "ba7816bf8f01cfea414140de5dae2223b00361a396177a9cb410ff61f20015ad"
    );
}

#[test]
fn sha256_of_nothing() {
    let digest = compute_sha256_hash(b"");
    assert_eq!(
        hex(&digest),
        "e3b0c44298fc1c149afbf4c8996fb92427ae41e4649b934ca495991b7852b855"
    );
}

#[test]
fn adr36_message_wraps_data_in_base64() {
    let doc = create_adr36_message(&"hello".to_string(), &"osmo1signer".to_string());
    assert_eq!(
        doc,
        "{\"account_number\":\"0\",\"chain_id\":\"\",\"fee\":{\"amount\":[],\"gas\":\"0\"},\"memo\":\"\",\"msgs\":[{\"type\":\"sign/MsgSignData\",\"value\":{\"data\":\"aGVsbG8=\",\"signer\":\"osmo1signer\"}}],\"sequence\":\"0\"}"
    );
}

#[test]
fn derived_address_has_prefix_and_length() {
    let key = [2u8; 33];
    let addr = derive_addr_from_pubkey(&key, "osmo").unwrap();
    assert!(addr.starts_with("osmo1"));
    assert_eq!(addr.len(), 43);
    let again = derive_addr_from_pubkey(&key, "osmo").unwrap();
    assert_eq!(addr, again);
    let other = derive_addr_from_pubkey(&[3u8; 33], "osmo").unwrap();
    assert_ne!(addr, other);
}

#[test]
fn derivation_refuses_bad_prefix() {
    let key = [2u8; 33];
    assert_eq!(
        derive_addr_from_pubkey(&key, ""),
        Err(ContractError::VerificationFailed)
    );
    assert_eq!(
        derive_addr_from_pubkey(&key, "Osmo"),
        Err(ContractError::VerificationFailed)
    );
    assert_eq!(
        derive_addr_from_pubkey(&key, "os mo"),
        Err(ContractError::VerificationFailed)
    );
    assert!(derive_addr_from_pubkey(&key, "OSMO").is_ok());
}

#[test]
fn malformed_signature_does_not_verify() {
    assert!(!signature_verifies(&[1u8; 32], &[0u8; 10], &[2u8; 33]));
    assert!(!signature_verifies(&[1u8; 5], &[0u8; 64], &[2u8; 33]));
    assert!(!signature_verifies(&[1u8; 32], &[7u8; 64], &[2u8; 3]));
}

#[test]
fn derived_address_encodes_the_digest_of_the_key() {
    let key = [2u8; 33];
    let addr = derive_addr_from_pubkey(&key, "osmo").unwrap();
    let (hrp, data, variant) = bech32::decode(&addr).unwrap();
    assert_eq!(hrp, "osmo");
    assert_eq!(variant, bech32::Variant::Bech32);
    let bytes = <Vec<u8> as bech32::FromBase32>::from_base32(&data).unwrap();
    let sha = <sha2::Sha256 as sha2::Digest>::digest(key);
    let rip = <ripemd::Ripemd160 as ripemd::Digest>::digest(sha);
    assert_eq!(bytes, rip.to_vec());
    assert_eq!(bytes.len(), 20);
}

#[test]
fn derived_address_of_a_known_key() {
    let key = base64::Engine::decode(
        &base64::engine::general_purpose::STANDARD,
        "AtQaCqFnshaZQp6rIkvAPyzThvCvXSDO+9AzbxVErqJP",
    )
    .unwrap();
    assert_eq!(
        derive_addr_from_pubkey(&key, "cosmos").unwrap(),
        "cosmos1h806c7khnvmjlywdrkdgk2vrayy2mmvf9rxk2r"
    );
}

#[test]
fn upper_case_prefix_is_written_in_lower_case() {
    let key = [2u8; 33];
    let lower = derive_addr_from_pubkey(&key, "osmo").unwrap();
    let upper = derive_addr_from_pubkey(&key, "OSMO").unwrap();
    assert_eq!(lower, upper);
}

#[test]
fn address_length_follows_the_prefix() {
    let key = [7u8; 33];
    for hrp in ["a", "osmo", "cosmos", "cosmosvaloper"] {
        let addr = derive_addr_from_pubkey(&key, hrp).unwrap();
        assert_eq!(addr.len(), hrp.len() + 39);
        assert!(addr.starts_with(&format!("{}1", hrp)));
    }
}
