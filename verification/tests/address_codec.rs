use ergo_address_core::address::{Address, AddressTypePrefix, NetworkPrefix};
use ergo_address_core::encode::{AddressEncoder, AddressEncoderError};
use ergo_address_core::ergo_tree::ErgoTree;
use ergo_address_core::serialization::SigmaParsingError;

/// A compressed secp256k1 point: x = 1 with even y.
fn point_bytes() -> Vec<u8> {
    let mut v = vec![0u8; 33];
    v[0] = 2;
    v[32] = 1;
    v
}

/// 33 bytes that are no point: x = 5 has no square root of x^3 + 7.
fn off_curve_bytes() -> Vec<u8> {
    let mut v = vec![0u8; 33];
    v[0] = 2;
    v[32] = 5;
    v
}

const MAINNET_P2PK: &str = "9eX4WpoErmVRnevxtZ8o5jgoGRtGigQv1uGmweUHU4j4KdNZ4T8";
const TESTNET_P2PK: &str = "3WvcD6bC3KRh24sDp6sRXsFUnDeKdR23X5sMjDBz9887ZckVRPH6";

#[test]
fn known_mainnet_p2pk_vector() {
    let address = Address::from_public_key_bytes(&point_bytes()).unwrap();
    let s = AddressEncoder::encode_address_as_string(NetworkPrefix::Mainnet, &address);
    assert_eq!(s, MAINNET_P2PK);
    let encoder = AddressEncoder::new(NetworkPrefix::Mainnet);
    let decoded = encoder.parse_address_from_str(&s).unwrap();
    assert_eq!(decoded, address);
    match &decoded {
        Address::P2Pk(statement) => assert_eq!(statement.h.to_vec(), point_bytes()),
        _ => panic!("expected a pay-to-public-key address"),
    }
    let again = AddressEncoder::encode_address_as_string(NetworkPrefix::Mainnet, &decoded);
    assert_eq!(again, MAINNET_P2PK);
}

#[test]
fn p2pk_roundtrip_testnet() {
    let address = Address::from_public_key_bytes(&point_bytes()).unwrap();
    let s = AddressEncoder::encode_address_as_string(NetworkPrefix::Testnet, &address);
    assert_eq!(s, TESTNET_P2PK);
    let encoder = AddressEncoder::new(NetworkPrefix::Testnet);
    assert_eq!(encoder.parse_address_from_str(&s).unwrap(), address);
}

#[test]
fn network_isolation() {
    let mainnet = AddressEncoder::new(NetworkPrefix::Mainnet);
    let testnet = AddressEncoder::new(NetworkPrefix::Testnet);
    assert_eq!(
        mainnet.parse_address_from_str(TESTNET_P2PK),
        Err(AddressEncoderError::NetworkMismatch)
    );
    assert_eq!(
        testnet.parse_address_from_str(MAINNET_P2PK),
        Err(AddressEncoderError::NetworkMismatch)
    );
    let a = AddressEncoder::unchecked_parse_address_from_str(MAINNET_P2PK).unwrap();
    let b = AddressEncoder::unchecked_parse_address_from_str(TESTNET_P2PK).unwrap();
    assert_eq!(a, b);
}

#[test]
fn checksum_corruption_is_rejected() {
    // The mainnet vector with one bit of its payload flipped and the old
    // checksum kept.
    let corrupt = "9gToh4FGiCAevUWfo8ko34HaBYVzNPFnoYLtBoABTijSpFSXWbY";
    let encoder = AddressEncoder::new(NetworkPrefix::Mainnet);
    assert_eq!(
        encoder.parse_address_from_str(corrupt),
        Err(AddressEncoderError::ChecksumMismatch)
    );
    // The mainnet vector with the lowest bit of its last stored checksum
    // byte flipped instead.
    let corrupt_checksum = "9eX4WpoErmVRnevxtZ8o5jgoGRtGigQv1uGmweUHU4j4KdNZ4T7";
    assert_eq!(
        encoder.parse_address_from_str(corrupt_checksum),
        Err(AddressEncoderError::ChecksumMismatch)
    );
}

#[test]
fn truncated_address_fails() {
    let strings = [MAINNET_P2PK.to_string(), TESTNET_P2PK.to_string()];
    for s in &strings {
        let truncated = &s[..s.len() - 1];
        let r = AddressEncoder::unchecked_parse_address_from_str(truncated);
        assert!(matches!(
            r,
            Err(AddressEncoderError::ChecksumMismatch) | Err(AddressEncoderError::InvalidBase58)
        ));
    }
}

#[test]
fn script_address_equivalence() {
    let address = Address::from_public_key_bytes(&point_bytes()).unwrap();
    let script = address.script().unwrap();
    let recreated = Address::recreate_from_ergo_tree(&script).unwrap();
    assert_eq!(recreated, address);
}

#[test]
fn p2pk_script_layout() {
    let address = Address::from_public_key_bytes(&point_bytes()).unwrap();
    let script = address.script().unwrap();
    let mut expected = vec![0x00u8, 0x08, 0xcd];
    expected.extend_from_slice(&point_bytes());
    assert_eq!(script.sigma_serialize_bytes(), expected);
}

#[test]
fn p2sh_script_roundtrip() {
    let hash: Vec<u8> = vec![
        73, 188, 219, 246, 45, 247, 112, 29, 94, 190, 155, 104, 203, 50, 219, 209, 76, 102, 109,
        107, 223, 42, 232, 114, 167, 74, 15, 240, 10, 182, 147, 200,
    ];
    let mut tree_bytes = vec![0x00u8, 0xea, 0x93, 0xb1, 0x20];
    tree_bytes.extend_from_slice(&hash);
    tree_bytes.extend_from_slice(&[0x73, 0x87]);
    let tree = ErgoTree::sigma_parse_bytes(&tree_bytes).unwrap();
    let address = Address::recreate_from_ergo_tree(&tree).unwrap();
    assert_eq!(address.address_type_prefix(), AddressTypePrefix::Pay2Sh);
    assert_eq!(address.content_bytes(), hash);
    let rebuilt = address.script().unwrap();
    assert_eq!(rebuilt.sigma_serialize_bytes(), tree_bytes);

    let s = AddressEncoder::encode_address_as_string(NetworkPrefix::Mainnet, &address);
    assert_eq!(s, "5SxtHTqGjvXBZWWmwkBRz7Z2a6TUb9edKE3Cy4SrSbogqXWf18");
    let encoder = AddressEncoder::new(NetworkPrefix::Mainnet);
    assert_eq!(encoder.parse_address_from_str(&s).unwrap(), address);
}

#[test]
fn p2s_passthrough_roundtrip() {
    let tree_bytes = vec![0x10u8, 0x01, 0x04];
    let tree = ErgoTree::sigma_parse_bytes(&tree_bytes).unwrap();
    let address = Address::recreate_from_ergo_tree(&tree).unwrap();
    assert_eq!(address.address_type_prefix(), AddressTypePrefix::Pay2S);
    assert_eq!(address.content_bytes(), tree_bytes);
    let s = AddressEncoder::encode_address_as_string(NetworkPrefix::Mainnet, &address);
    assert_eq!(s, "WiCEkxx7jW");
    let encoder = AddressEncoder::new(NetworkPrefix::Mainnet);
    assert_eq!(encoder.parse_address_from_str(&s).unwrap(), address);
}

#[test]
fn identity_point_roundtrip() {
    let identity = vec![0u8; 33];
    let address = Address::from_public_key_bytes(&identity).unwrap();
    let s = AddressEncoder::encode_address_as_string(NetworkPrefix::Mainnet, &address);
    assert_eq!(s, "9adaAMuB9v8yX1mZ5PtoB6VFSCeqRGjASd8ZTM6VUkiHLDgh2Rp");
    let encoder = AddressEncoder::new(NetworkPrefix::Mainnet);
    assert_eq!(encoder.parse_address_from_str(&s).unwrap(), address);
}

#[test]
fn off_curve_point_is_rejected() {
    assert_eq!(
        Address::from_public_key_bytes(&off_curve_bytes()),
        Err(SigmaParsingError::InvalidEcPoint)
    );
    // The same payload inside an otherwise well-formed address string.
    let s = "9eX4WpoErmVRnevxtZ8o5jgoGRtGigQv1uGmweUHU4j4L2qhDUs";
    let encoder = AddressEncoder::new(NetworkPrefix::Mainnet);
    assert_eq!(
        encoder.parse_address_from_str(s),
        Err(AddressEncoderError::InvalidEcPoint)
    );
}

#[test]
fn unrecognized_type_header_is_rejected() {
    // Header nibble 4 over a one-byte payload, with a valid checksum.
    let encoder = AddressEncoder::new(NetworkPrefix::Mainnet);
    assert_eq!(
        encoder.parse_address_from_str("3KmBe9Kw"),
        Err(AddressEncoderError::UnrecognizedAddressType)
    );
}

#[test]
fn too_short_input_is_rejected() {
    // "111" decodes to three zero bytes: fewer than any address holds.
    let encoder = AddressEncoder::new(NetworkPrefix::Mainnet);
    assert_eq!(
        encoder.parse_address_from_str("111"),
        Err(AddressEncoderError::InvalidSize)
    );
}

#[test]
fn invalid_base58_is_rejected() {
    let encoder = AddressEncoder::new(NetworkPrefix::Mainnet);
    assert_eq!(
        encoder.parse_address_from_str("0OIl"),
        Err(AddressEncoderError::InvalidBase58)
    );
}

#[test]
fn type_prefix_values() {
    assert_eq!(AddressTypePrefix::P2Pk.value(), 1);
    assert_eq!(AddressTypePrefix::Pay2Sh.value(), 2);
    assert_eq!(AddressTypePrefix::Pay2S.value(), 3);
    assert_eq!(NetworkPrefix::Mainnet.value(), 0);
    assert_eq!(NetworkPrefix::Testnet.value(), 16);
    // Mainnet pay-to-public-key header is 1, testnet is 17.
    let address = Address::from_public_key_bytes(&point_bytes()).unwrap();
    let main = AddressEncoder::encode_address_as_bytes(NetworkPrefix::Mainnet, &address);
    let test = AddressEncoder::encode_address_as_bytes(NetworkPrefix::Testnet, &address);
    assert_eq!(main[0], 1);
    assert_eq!(test[0], 17);
}
