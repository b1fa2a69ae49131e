use cloud_cli::crypto::{
    address_of_pubkey, hash_data, signature_len, verify, Account, Address, Algorithm, Signature,
    ADDR_BYTES, HASH_BYTES,
};
use cloud_cli::errors::CliError;
use cloud_cli::hexutil::hex_decode;

fn unhex(s: &str) -> Vec<u8> {
    hex_decode(s.as_bytes()).unwrap()
}

#[test]
fn hash_fixed_length_round_trip() {
    let bytes = vec![7u8; HASH_BYTES];
    let h = cloud_cli::crypto::Hash::try_from_slice(Algorithm::Eth, &bytes).unwrap();
    assert_eq!(h.to_vec(), bytes);
    let bad = cloud_cli::crypto::Hash::try_from_slice(Algorithm::Eth, &[7u8; 31]);
    assert!(matches!(
        bad,
        Err(CliError::ProtocolMismatch { expected: 32, got: 31 })
    ));
}

#[test]
fn address_fixed_length_round_trip() {
    let bytes = vec![9u8; ADDR_BYTES];
    let a = Address::try_from_slice(Algorithm::Sm, &bytes).unwrap();
    assert_eq!(a.to_vec(), bytes);
    let bad = Address::try_from_slice(Algorithm::Sm, &[9u8; 21]);
    assert!(matches!(
        bad,
        Err(CliError::ProtocolMismatch { expected: 20, got: 21 })
    ));
}

#[test]
fn signature_fixed_length_round_trip() {
    assert_eq!(signature_len(Algorithm::Eth), 65);
    assert_eq!(signature_len(Algorithm::Sm), 128);
    let bytes = vec![1u8; 65];
    let s = Signature::try_from_slice(Algorithm::Eth, &bytes).unwrap();
    assert_eq!(s.to_vec(), bytes);
    // A 65-byte signature under the SM provider is a length mismatch.
    let bad = Signature::try_from_slice(Algorithm::Sm, &bytes);
    assert!(matches!(
        bad,
        Err(CliError::ProtocolMismatch { expected: 128, got: 65 })
    ));
}

#[test]
fn keccak_known_vector() {
    // Keccak-256 of the empty string.
    let h = hash_data(Algorithm::Eth, &[]);
    assert_eq!(
        h,
        unhex("c5d2460186f7233c927e7db2dcc703c0e500b653ca82273b7bfad8045d85a470")
    );
}

#[test]
fn sm3_known_vector() {
    // SM3 of "abc", the standard's own test vector.
    let h = hash_data(Algorithm::Sm, b"abc");
    assert_eq!(
        h,
        unhex("66c7f0f462eeedd9d1f2d46bdc10e4e24167c4875cf2f7a2297da02b8f4ba8e0")
    );
}

#[test]
fn address_is_hash_tail() {
    let pk = vec![5u8; 64];
    let addr = address_of_pubkey(Algorithm::Eth, &pk);
    let h = hash_data(Algorithm::Eth, &pk);
    assert_eq!(addr.bytes, h[12..32].to_vec());
    assert_eq!(addr.bytes.len(), ADDR_BYTES);
}

#[test]
fn sign_then_verify_eth() {
    let sk = vec![1u8; 32];
    let account = Account::from_secret(Algorithm::Eth, sk).unwrap();
    let payload = vec![2u8; 32];
    let sig = account.sign(&payload).unwrap();
    assert_eq!(sig.bytes.len(), 65);
    assert_eq!(verify(&account.address, &payload, &sig).unwrap(), true);
    // A different payload must not verify.
    let other = vec![3u8; 32];
    assert_eq!(verify(&account.address, &other, &sig).unwrap(), false);
}

#[test]
fn sign_then_verify_sm() {
    let sk = vec![4u8; 32];
    let account = Account::from_secret(Algorithm::Sm, sk).unwrap();
    let payload = vec![6u8; 32];
    let sig = account.sign(&payload).unwrap();
    assert_eq!(sig.bytes.len(), 128);
    assert_eq!(verify(&account.address, &payload, &sig).unwrap(), true);
    let other = vec![7u8; 32];
    assert_eq!(verify(&account.address, &other, &sig).unwrap(), false);
}

#[test]
fn verify_rejects_wrong_signer() {
    let a = Account::from_secret(Algorithm::Eth, vec![1u8; 32]).unwrap();
    let b = Account::from_secret(Algorithm::Eth, vec![2u8; 32]).unwrap();
    let payload = vec![2u8; 32];
    let sig = a.sign(&payload).unwrap();
    assert_eq!(verify(&b.address, &payload, &sig).unwrap(), false);
}

#[test]
fn cross_provider_verification_fails_fast() {
    // A transaction signed under one provider, checked against the other
    // provider's address type: a detected mismatch, never a silent false.
    let account = Account::from_secret(Algorithm::Eth, vec![1u8; 32]).unwrap();
    let payload = vec![2u8; 32];
    let sig = account.sign(&payload).unwrap();
    let sm_addr = Address::try_from_slice(Algorithm::Sm, &account.address.to_vec()).unwrap();
    let r = verify(&sm_addr, &payload, &sig);
    match r {
        Err(e) => assert!(e.is_protocol_mismatch()),
        Ok(_) => panic!("algorithm mismatch must not verify silently"),
    }
}

#[test]
fn generate_yields_consistent_account() {
    let account = Account::generate(Algorithm::Eth).unwrap();
    assert_eq!(account.address.bytes.len(), ADDR_BYTES);
    assert_eq!(account.public_key.len(), 64);
    let payload = vec![9u8; 32];
    let sig = account.sign(&payload).unwrap();
    assert_eq!(verify(&account.address, &payload, &sig).unwrap(), true);
}
