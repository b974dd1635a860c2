use std::collections::BTreeMap;

use serde_cbor::value::Value;

use solmeta::{CborError, Digest, Metadata, MetadataError, SolidityVersion};

/// Appends `blob` and its big-endian 2-byte length to `prefix`, the way
/// compilers append the metadata trailer to bytecode.
fn with_trailer(prefix: &[u8], blob: &[u8]) -> Vec<u8> {
    let mut out = prefix.to_vec();
    out.extend_from_slice(blob);
    let n = blob.len() as u16;
    out.push((n >> 8) as u8);
    out.push((n & 0xff) as u8);
    out
}

fn cbor_map(entries: Vec<(&str, Value)>) -> Vec<u8> {
    let mut m = BTreeMap::new();
    for (k, v) in entries {
        m.insert(Value::Text(k.to_string()), v);
    }
    serde_cbor::to_vec(&Value::Map(m)).unwrap()
}

#[test]
fn insufficient_data_empty() {
    assert_eq!(
        Metadata::try_from(&[]).unwrap_err(),
        MetadataError::InsufficientData
    );
}

#[test]
fn insufficient_data_one_byte() {
    assert_eq!(
        Metadata::try_from(&[0x42]).unwrap_err(),
        MetadataError::InsufficientData
    );
}

#[test]
fn trailer_overrun_small_buffer() {
    // declared length 16, but nothing before the length field
    assert_eq!(
        Metadata::try_from(&[0x00, 0x10]).unwrap_err(),
        MetadataError::TrailerOverrun
    );
}

#[test]
fn trailer_overrun_largest_declared_length() {
    let mut buf = vec![0u8; 100];
    buf.push(0xff);
    buf.push(0xff);
    assert_eq!(
        Metadata::try_from(&buf).unwrap_err(),
        MetadataError::TrailerOverrun
    );
}

#[test]
fn locate_trailer_range() {
    // four trailer bytes, then the length field
    let buf = [9u8, 9, 1, 2, 3, 4, 0x00, 0x04];
    let view = solmeta::locate_trailer(&buf).unwrap();
    assert_eq!(view.start, 2);
    assert_eq!(view.end, 6);
    assert_eq!(view.declared_len, 4);
}

#[test]
fn ipfs_and_solc() {
    // only `ipfs` and `solc` present: the digest is the base-58 form of
    // the ipfs bytes, experimental defaults to false
    let blob = cbor_map(vec![
        ("ipfs", Value::Bytes(b"abc".to_vec())),
        ("solc", Value::Bytes(vec![7, 0, 6])),
    ]);
    let buf = with_trailer(&[0xde, 0xad], &blob);
    let meta = Metadata::try_from(&buf).unwrap();
    match meta.digest {
        Some(Digest::Ipfs(s)) => {
            assert_eq!(s, "ZiCa");
            assert_eq!(s, bs58::encode(b"abc").into_string());
        }
        other => panic!("expected an IPFS digest, got {:?}", other),
    }
    assert!(!meta.experimental);
    let v = meta.solidity_version.unwrap();
    assert_eq!((v.major, v.minor, v.patch), (7, 0, 6));
}

#[test]
fn swarm_v1_wins_over_v0() {
    let blob = cbor_map(vec![
        ("bzzr0", Value::Bytes(vec![0x01])),
        ("bzzr1", Value::Bytes(vec![0xde, 0xad, 0xbe, 0xef])),
    ]);
    let buf = with_trailer(&[], &blob);
    let meta = Metadata::try_from(&buf).unwrap();
    match meta.digest {
        Some(Digest::Swarm(s)) => {
            assert_eq!(s, "deadbeef");
            assert_ne!(s, "01");
        }
        other => panic!("expected a Swarm digest, got {:?}", other),
    }
}

#[test]
fn ipfs_wins_over_swarm() {
    let blob = cbor_map(vec![
        ("ipfs", Value::Bytes(b"abc".to_vec())),
        ("bzzr1", Value::Bytes(vec![0xde, 0xad])),
    ]);
    let buf = with_trailer(&[7], &blob);
    let meta = Metadata::try_from(&buf).unwrap();
    match meta.digest {
        Some(Digest::Ipfs(s)) => assert_eq!(s, "ZiCa"),
        other => panic!("expected an IPFS digest, got {:?}", other),
    }
}

#[test]
fn swarm_v0_alone() {
    let blob = cbor_map(vec![("bzzr0", Value::Bytes(vec![0xab, 0x01]))]);
    let buf = with_trailer(&[], &blob);
    let meta = Metadata::try_from(&buf).unwrap();
    match meta.digest {
        Some(Digest::Swarm(s)) => assert_eq!(s, "ab01"),
        other => panic!("expected a Swarm digest, got {:?}", other),
    }
}

#[test]
fn solc_two_bytes_fails() {
    let blob = cbor_map(vec![("solc", Value::Bytes(vec![0, 7]))]);
    let buf = with_trailer(&[], &blob);
    assert_eq!(
        Metadata::try_from(&buf).unwrap_err(),
        MetadataError::InvalidVersionLength
    );
}

#[test]
fn solc_four_bytes_fails() {
    let blob = cbor_map(vec![("solc", Value::Bytes(vec![0, 7, 6, 5]))]);
    let buf = with_trailer(&[], &blob);
    assert_eq!(
        Metadata::try_from(&buf).unwrap_err(),
        MetadataError::InvalidVersionLength
    );
}

#[test]
fn solc_zero_and_one_byte_fail() {
    for bytes in [vec![], vec![9u8]] {
        let blob = cbor_map(vec![("solc", Value::Bytes(bytes))]);
        let buf = with_trailer(&[], &blob);
        assert_eq!(
            Metadata::try_from(&buf).unwrap_err(),
            MetadataError::InvalidVersionLength
        );
    }
}

#[test]
fn solc_absent_is_fine() {
    let blob = cbor_map(vec![]);
    let buf = with_trailer(&[1, 2, 3], &blob);
    let meta = Metadata::try_from(&buf).unwrap();
    assert!(meta.solidity_version.is_none());
    assert!(meta.digest.is_none());
    assert!(!meta.experimental);
}

#[test]
fn version_parser_exact() {
    let v = SolidityVersion::try_from(&[1, 2, 3]).unwrap();
    assert_eq!((v.major, v.minor, v.patch), (1, 2, 3));
    assert_eq!(
        SolidityVersion::try_from(&[1, 2]).unwrap_err(),
        MetadataError::InvalidVersionLength
    );
}

#[test]
fn experimental_flag_carries_over() {
    let blob = cbor_map(vec![("experimental", Value::Bool(true))]);
    let buf = with_trailer(&[], &blob);
    let meta = Metadata::try_from(&buf).unwrap();
    assert!(meta.experimental);
}

#[test]
fn unknown_keys_are_ignored() {
    let blob = cbor_map(vec![
        ("ipfs", Value::Bytes(b"abc".to_vec())),
        ("language", Value::Text("Solidity".to_string())),
        ("weights", Value::Array(vec![Value::Integer(1), Value::Integer(2)])),
    ]);
    let buf = with_trailer(&[], &blob);
    let meta = Metadata::try_from(&buf).unwrap();
    assert!(matches!(meta.digest, Some(Digest::Ipfs(_))));
}

#[test]
fn end_to_end() {
    let h = b"\x12\x20some-digest-bytes".to_vec();
    let blob = cbor_map(vec![
        ("ipfs", Value::Bytes(h.clone())),
        ("solc", Value::Bytes(vec![0, 7, 6])),
        ("experimental", Value::Bool(false)),
    ]);
    let mut prefix = vec![0x60u8; 33];
    prefix.push(0x00);
    let buf = with_trailer(&prefix, &blob);
    let meta = Metadata::try_from(&buf).unwrap();
    match meta.digest {
        Some(Digest::Ipfs(s)) => assert_eq!(s, bs58::encode(&h).into_string()),
        other => panic!("expected an IPFS digest, got {:?}", other),
    }
    assert!(!meta.experimental);
    let v = meta.solidity_version.unwrap();
    assert_eq!((v.major, v.minor, v.patch), (0, 7, 6));
}

#[test]
fn wrong_shape_for_experimental() {
    let blob = cbor_map(vec![("experimental", Value::Integer(1))]);
    let buf = with_trailer(&[], &blob);
    assert_eq!(
        Metadata::try_from(&buf).unwrap_err(),
        MetadataError::MalformedStructuredData(CborError::WrongShape)
    );
}

#[test]
fn wrong_shape_for_ipfs() {
    let blob = cbor_map(vec![("ipfs", Value::Text("QmHash".to_string()))]);
    let buf = with_trailer(&[], &blob);
    assert_eq!(
        Metadata::try_from(&buf).unwrap_err(),
        MetadataError::MalformedStructuredData(CborError::WrongShape)
    );
}

#[test]
fn duplicate_key_fails() {
    // hand-built: a map of two entries, both keyed `ipfs`
    let blob = vec![
        0xa2, // map, 2 entries
        0x64, b'i', b'p', b'f', b's', 0x41, 0x01, // ipfs: [0x01]
        0x64, b'i', b'p', b'f', b's', 0x41, 0x02, // ipfs: [0x02]
    ];
    let buf = with_trailer(&[], &blob);
    assert_eq!(
        Metadata::try_from(&buf).unwrap_err(),
        MetadataError::MalformedStructuredData(CborError::DuplicateKey)
    );
}

#[test]
fn not_a_map() {
    // the trailer is a single unsigned integer
    let buf = with_trailer(&[], &[0x07]);
    assert_eq!(
        Metadata::try_from(&buf).unwrap_err(),
        MetadataError::MalformedStructuredData(CborError::NotAMap)
    );
}

#[test]
fn truncated_map() {
    // a map that declares one entry and ends
    let buf = with_trailer(&[], &[0xa1]);
    assert_eq!(
        Metadata::try_from(&buf).unwrap_err(),
        MetadataError::MalformedStructuredData(CborError::Truncated)
    );
}

#[test]
fn indefinite_length_is_refused() {
    // indefinite-length byte string (major type 2, additional info 31)
    let buf = with_trailer(&[], &[0x5f]);
    assert_eq!(
        Metadata::try_from(&buf).unwrap_err(),
        MetadataError::MalformedStructuredData(CborError::InvalidHeader)
    );
}

#[test]
fn trailing_bytes_are_refused() {
    // an empty map followed by a stray byte
    let buf = with_trailer(&[], &[0xa0, 0x00]);
    assert_eq!(
        Metadata::try_from(&buf).unwrap_err(),
        MetadataError::MalformedStructuredData(CborError::TrailingData)
    );
}

#[test]
fn nesting_too_deep_is_refused() {
    // an ignored value of 200 nested arrays
    let mut blob = vec![0xa1, 0x61, b'x'];
    blob.extend(std::iter::repeat(0x81).take(200));
    blob.push(0x00);
    let buf = with_trailer(&[], &blob);
    assert_eq!(
        Metadata::try_from(&buf).unwrap_err(),
        MetadataError::MalformedStructuredData(CborError::TooDeep)
    );
}

#[test]
fn decode_fields_direct() {
    let blob = cbor_map(vec![
        ("bzzr0", Value::Bytes(vec![1, 2])),
        ("bzzr1", Value::Bytes(vec![3])),
        ("experimental", Value::Bool(true)),
        ("ipfs", Value::Bytes(vec![9, 9, 9])),
        ("solc", Value::Bytes(vec![0, 8, 1])),
    ]);
    let fields = solmeta::decode_fields(&blob).unwrap();
    assert_eq!(fields.ipfs, Some(vec![9, 9, 9]));
    assert_eq!(fields.bzzr0, Some(vec![1, 2]));
    assert_eq!(fields.bzzr1, Some(vec![3]));
    assert_eq!(fields.experimental, Some(true));
    assert_eq!(fields.solc, Some(vec![0, 8, 1]));
}

#[test]
fn display_strings() {
    let d = Digest::Ipfs("ZiCa".to_string());
    assert_eq!(d.display_string(), "ipfs://ZiCa");
    let d = Digest::Swarm("deadbeef".to_string());
    assert_eq!(d.display_string(), "bzz://deadbeef");
}
