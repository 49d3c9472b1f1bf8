use ergo_address_core::box_id::BoxId;
use ergo_address_core::digest32::{Digest32, Digest32Error};
use ergo_address_core::ec_point::EcPoint;
use ergo_address_core::serialization::{SigmaByteReader, SigmaByteWriter, SigmaParsingError};
use ergo_address_core::val_def_type_store::{SType, ValDefTypeStore, ValId};

#[test]
fn zero_box_id_serializes_to_zero_bytes() {
    let zero = BoxId::zero();
    let mut w = SigmaByteWriter::new();
    zero.sigma_serialize(&mut w);
    let bytes = w.into_bytes();
    assert_eq!(bytes, vec![0u8; 32]);

    let mut r = SigmaByteReader::new(&bytes);
    let parsed = BoxId::sigma_parse(&mut r).unwrap();
    assert_eq!(parsed, BoxId::zero());
    assert!(r.is_at_end());
}

#[test]
fn digest_serialize_roundtrip() {
    let bytes: Vec<u8> = (0u8..32).collect();
    let digest = Digest32::from_vec(bytes.clone()).unwrap();
    let mut w = SigmaByteWriter::new();
    digest.sigma_serialize(&mut w);
    let wire = w.into_bytes();
    assert_eq!(wire, bytes);
    let mut r = SigmaByteReader::new(&wire);
    assert_eq!(Digest32::sigma_parse(&mut r).unwrap(), digest);
}

#[test]
fn writer_appends_in_order() {
    let mut w = SigmaByteWriter::new();
    w.put_u8(7);
    w.put_slice(&[8, 9]);
    w.put_u8(10);
    assert_eq!(w.into_bytes(), vec![7, 8, 9, 10]);
}

#[test]
fn digest_parse_fails_on_truncated_stream() {
    let bytes = vec![7u8; 31];
    let mut r = SigmaByteReader::new(&bytes);
    assert_eq!(
        Digest32::sigma_parse(&mut r),
        Err(SigmaParsingError::UnexpectedEof)
    );
}

#[test]
fn box_id_base16_roundtrip() {
    let bytes: Vec<u8> = (100u8..132).collect();
    let id = BoxId(Digest32::from_vec(bytes).unwrap());
    let s = id.to_base16_string();
    assert_eq!(s.len(), 64);
    assert_eq!(BoxId::from_base16_str(&s).unwrap(), id);

    let zero_hex = BoxId::zero().to_base16_string();
    assert_eq!(zero_hex, "0".repeat(64));
    assert_eq!(BoxId::from_base16_str(&zero_hex).unwrap(), BoxId::zero());
}

#[test]
fn box_id_base16_accepts_upper_case() {
    let bytes: Vec<u8> = vec![0xABu8; 32];
    let id = BoxId(Digest32::from_vec(bytes).unwrap());
    let upper = id.to_base16_string().to_uppercase();
    assert_eq!(BoxId::from_base16_str(&upper).unwrap(), id);
}

#[test]
fn box_id_from_string_errors() {
    assert_eq!(
        BoxId::from_base16_str("zz"),
        Err(Digest32Error::InvalidBase16)
    );
    assert_eq!(
        BoxId::from_base16_str("abc"),
        Err(Digest32Error::InvalidBase16)
    );
    assert_eq!(
        BoxId::from_base16_str("abcd"),
        Err(Digest32Error::InvalidSize)
    );
}

#[test]
fn box_id_signed_bytes() {
    let mut bytes = vec![0u8; 32];
    bytes[0] = 255;
    bytes[1] = 128;
    bytes[2] = 127;
    let id = BoxId(Digest32::from_vec(bytes).unwrap());
    let signed = id.to_signed_bytes();
    assert_eq!(signed.len(), 32);
    assert_eq!(signed[0], -1);
    assert_eq!(signed[1], -128);
    assert_eq!(signed[2], 127);
    assert_eq!(signed[3], 0);
}

#[test]
fn ec_point_serialize_roundtrip() {
    let mut bytes = vec![0u8; 33];
    bytes[0] = 2;
    bytes[32] = 1;
    let point = EcPoint::from_bytes(bytes.clone()).unwrap();
    let mut w = SigmaByteWriter::new();
    point.sigma_serialize(&mut w);
    let wire = w.into_bytes();
    assert_eq!(wire, bytes);
    let mut r = SigmaByteReader::new(&wire);
    assert_eq!(EcPoint::sigma_parse(&mut r).unwrap(), point);
}

#[test]
fn ec_point_identity_is_normalized() {
    // Any 33-byte group starting with a zero byte reads as the identity.
    let mut bytes = vec![9u8; 33];
    bytes[0] = 0;
    let point = EcPoint::from_bytes(bytes).unwrap();
    assert_eq!(point, EcPoint::identity());
    assert_eq!(point.to_vec(), vec![0u8; 33]);
}

#[test]
fn val_def_type_store_records_types() {
    let mut store = ValDefTypeStore::new();
    assert_eq!(store.get(&ValId(1)), None);
    store.insert(ValId(1), SType::SInt);
    store.insert(ValId(2), SType::SSigmaProp);
    assert_eq!(store.get(&ValId(1)), Some(&SType::SInt));
    assert_eq!(store.get(&ValId(2)), Some(&SType::SSigmaProp));
    store.insert(ValId(1), SType::SLong);
    assert_eq!(store.get(&ValId(1)), Some(&SType::SLong));

    let empty = ValDefTypeStore::default();
    assert_eq!(empty.get(&ValId(1)), None);
}
