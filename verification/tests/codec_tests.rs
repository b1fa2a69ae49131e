use cloud_cli::codec::{encode_varint, CloudNormalTransaction, CloudUtxoTransaction};
use cloud_cli::errors::CliError;
use cloud_cli::hexutil::{hex_decode, hex_encode, parse_data, parse_u64};

fn varint_bytes(v: u64) -> Vec<u8> {
    let mut out = Vec::new();
    encode_varint(v, &mut out);
    out
}

#[test]
fn varint_small_values_are_one_byte() {
    assert_eq!(varint_bytes(0), vec![0x00]);
    assert_eq!(varint_bytes(1), vec![0x01]);
    assert_eq!(varint_bytes(127), vec![0x7f]);
}

#[test]
fn varint_continuation() {
    assert_eq!(varint_bytes(128), vec![0x80, 0x01]);
    assert_eq!(varint_bytes(300), vec![0xac, 0x02]);
    assert_eq!(
        varint_bytes(u64::MAX),
        vec![0xff, 0xff, 0xff, 0xff, 0xff, 0xff, 0xff, 0xff, 0xff, 0x01]
    );
}

#[test]
fn normal_tx_encoding_is_exact() {
    let tx = CloudNormalTransaction {
        version: 1,
        to: vec![0xaa, 0xbb],
        nonce: "abc".to_string(),
        quota: 5,
        valid_until_block: 100,
        data: vec![0x01],
        value: Vec::new(),
        chain_id: vec![0x07],
    };
    let expected: Vec<u8> = vec![
        0x08, 0x01, // version = 1
        0x12, 0x02, 0xaa, 0xbb, // to
        0x1a, 0x03, 0x61, 0x62, 0x63, // nonce "abc"
        0x20, 0x05, // quota = 5
        0x28, 0x64, // valid_until_block = 100
        0x32, 0x01, 0x01, // data; empty value skipped
        0x42, 0x01, 0x07, // chain_id
    ];
    assert_eq!(tx.encode(), expected);
}

#[test]
fn normal_tx_default_fields_are_skipped() {
    let tx = CloudNormalTransaction {
        version: 0,
        to: Vec::new(),
        nonce: String::new(),
        quota: 0,
        valid_until_block: 0,
        data: Vec::new(),
        value: Vec::new(),
        chain_id: Vec::new(),
    };
    assert_eq!(tx.encode(), Vec::<u8>::new());
}

#[test]
fn encoding_is_deterministic() {
    let make = || CloudNormalTransaction {
        version: 2,
        to: vec![1, 2, 3],
        nonce: "n".to_string(),
        quota: 30000,
        valid_until_block: 95,
        data: vec![9, 8],
        value: vec![0, 0, 1],
        chain_id: vec![1],
    };
    assert_eq!(make().encode(), make().encode());
}

#[test]
fn utxo_tx_encoding_is_exact() {
    let utxo = CloudUtxoTransaction {
        version: 1,
        pre_tx_hash: vec![0xcc; 3],
        output: vec![0x05],
        lock_id: 1002,
    };
    let expected: Vec<u8> = vec![
        0x08, 0x01, // version
        0x12, 0x03, 0xcc, 0xcc, 0xcc, // pre_tx_hash
        0x1a, 0x01, 0x05, // output
        0x20, 0xea, 0x07, // lock_id = 1002
    ];
    assert_eq!(utxo.encode(), expected);
}

#[test]
fn hex_encode_is_lowercase() {
    assert_eq!(hex_encode(&[0xde, 0xad, 0xbe, 0xef]), b"deadbeef".to_vec());
    assert_eq!(hex_encode(&[]), Vec::<u8>::new());
}

#[test]
fn hex_decode_round_trip() {
    let bytes = vec![0x00, 0x7f, 0x80, 0xff, 0x12];
    assert_eq!(hex_decode(&hex_encode(&bytes)).unwrap(), bytes);
    // Upper-case digits decode too.
    assert_eq!(hex_decode(b"DEADBEEF").unwrap(), vec![0xde, 0xad, 0xbe, 0xef]);
}

#[test]
fn hex_decode_rejects_odd_length() {
    assert!(matches!(hex_decode(b"abc"), Err(CliError::InvalidInput(_))));
}

#[test]
fn hex_decode_rejects_bad_digit() {
    assert!(matches!(hex_decode(b"zz"), Err(CliError::InvalidInput(_))));
}

#[test]
fn parse_data_strips_prefix() {
    assert_eq!(parse_data(b"0x0102").unwrap(), vec![1, 2]);
    assert_eq!(parse_data(b"0102").unwrap(), vec![1, 2]);
}

#[test]
fn parse_u64_exact_values() {
    assert_eq!(parse_u64(b"0").unwrap(), 0);
    assert_eq!(parse_u64(b"3000000").unwrap(), 3_000_000);
    assert_eq!(parse_u64(b"18446744073709551615").unwrap(), u64::MAX);
}

#[test]
fn parse_u64_rejects_bad_input() {
    assert!(matches!(parse_u64(b""), Err(CliError::InvalidInput(_))));
    assert!(matches!(parse_u64(b"12a"), Err(CliError::InvalidInput(_))));
    assert!(matches!(
        parse_u64(b"18446744073709551616"),
        Err(CliError::InvalidInput(_))
    ));
}
