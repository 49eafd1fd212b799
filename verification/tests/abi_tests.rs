use rustry::abi::{
    abi_decode, abi_encode, abi_encode_signature, decode_return, encode_call, encode_parameter,
    get_sig, parse_abi_type, AbiError, AbiType, AbiValueType,
};

#[test]
fn good_sig() {
    assert_eq!(get_sig("transfer(uint256,address)"), vec![0xb7, 0x76, 0x0c, 0x8f]);
}

#[test]
fn encode_with_sig() {
    assert_eq!(abi_encode_signature("pwn()", vec![]), get_sig("pwn()"));
    assert_eq!(
        abi_encode_signature("transfer(uint256,address)", vec![vec![0u8], vec![0]]),
        [[0xb7, 0x76, 0x0c, 0x8f].to_vec(), [0u8; 32].to_vec(), [0u8; 20].to_vec()].concat()
    );
}

#[test]
fn selector_is_deterministic() {
    let a = get_sig("transfer(uint256,address)");
    let b = get_sig("transfer(uint256,address)");
    assert_eq!(a, b);
    assert_eq!(a.len(), 4);
}

#[test]
fn encode_call_empty_args_is_bare_selector() {
    let out = encode_call("pwn()", &vec![]).unwrap();
    assert_eq!(out, get_sig("pwn()"));
    assert_eq!(out.len(), 4);
}

#[test]
fn encode_parameter_pads_left() {
    let v = encode_parameter(b"uint256", &[0xab, 0xcd]).unwrap();
    let mut expected = vec![0u8; 30];
    expected.extend_from_slice(&[0xab, 0xcd]);
    assert_eq!(v.inner(), &expected);
    assert!(matches!(v, AbiValueType::Uint(_)));

    let a = encode_parameter(b"address", &[0x11]).unwrap();
    assert_eq!(a.inner().len(), 20);
    assert!(matches!(a, AbiValueType::Address(_)));

    let i = encode_parameter(b"int128", &[0x7f]).unwrap();
    assert_eq!(i.inner().len(), 32);
    assert!(matches!(i, AbiValueType::Int(_)));
}

#[test]
fn encode_parameter_rejects_oversize() {
    let long33 = vec![1u8; 33];
    assert!(matches!(encode_parameter(b"uint256", &long33), Err(AbiError::Oversize)));
    let long21 = vec![1u8; 21];
    assert!(matches!(encode_parameter(b"address", &long21), Err(AbiError::Oversize)));
}

#[test]
fn encode_parameter_rejects_arrays_and_tuples() {
    assert!(matches!(encode_parameter(b"uint256[]", &[0]), Err(AbiError::UnsupportedType)));
    assert!(matches!(encode_parameter(b"(uint256,uint8)", &[0]), Err(AbiError::UnsupportedType)));
    assert!(matches!(encode_parameter(b"bytes32", &[0]), Err(AbiError::UnsupportedType)));
}

#[test]
fn encode_call_rejects_oversize_rather_than_truncating() {
    let long = vec![1u8; 33];
    let r = encode_call("transfer(uint256,address)", &vec![long, vec![0]]);
    assert!(matches!(r, Err(AbiError::Oversize)));
}

#[test]
fn encode_call_rejects_arity_mismatch() {
    let r = encode_call("transfer(uint256,address)", &vec![vec![0]]);
    assert!(matches!(r, Err(AbiError::ArityMismatch)));
}

#[test]
fn encode_call_rejects_bad_signature() {
    assert!(matches!(encode_call("pwn", &vec![]), Err(AbiError::BadSignature)));
    assert!(matches!(encode_call("pwn(", &vec![]), Err(AbiError::BadSignature)));
}

#[test]
fn parse_abi_type_kinds() {
    assert!(matches!(parse_abi_type(b"uint256"), Some(AbiType::Uint)));
    assert!(matches!(parse_abi_type(b"uint"), Some(AbiType::Uint)));
    assert!(matches!(parse_abi_type(b"int8"), Some(AbiType::Int)));
    assert!(matches!(parse_abi_type(b"address"), Some(AbiType::Address)));
    assert!(matches!(parse_abi_type(b"addressx"), None));
    assert!(matches!(parse_abi_type(b"uint256[]"), None));
    assert!(matches!(parse_abi_type(b"bool"), None));
}

#[test]
fn abi_type_widths() {
    assert_eq!(AbiType::Uint.len(), 32);
    assert_eq!(AbiType::Int.len(), 32);
    assert_eq!(AbiType::Address.len(), 20);
}

#[test]
fn sanitize_pads_and_passes_through() {
    assert_eq!(AbiValueType::sanitize(&[7], 4), vec![0, 0, 0, 7]);
    assert_eq!(AbiValueType::sanitize(&[1, 2, 3, 4], 4), vec![1, 2, 3, 4]);
    assert_eq!(AbiValueType::sanitize(&[], 2), vec![0, 0]);
}

#[test]
fn abi_value_from_encodes() {
    let v = AbiValueType::from("uint256", &[9]);
    assert_eq!(v.inner()[31], 9);
    assert_eq!(v.inner().len(), 32);
}

#[test]
fn abi_encode_concatenates_in_order() {
    let a = encode_parameter(b"uint8", &[1]).unwrap();
    let b = encode_parameter(b"address", &[2]).unwrap();
    let joined = abi_encode(vec![a, b]);
    assert_eq!(joined.len(), 52);
    assert_eq!(joined[31], 1);
    assert_eq!(joined[51], 2);
}

#[test]
fn decode_slices_back_exactly() {
    let data: Vec<u8> = (0..52u8).collect();
    let out = abi_decode(&data, vec![AbiType::Uint, AbiType::Address]);
    assert_eq!(out, data);
}

#[test]
fn decode_return_checks_length_exactly() {
    let data = vec![0u8; 52];
    assert_eq!(decode_return(&data, &vec![AbiType::Uint, AbiType::Address]).unwrap(), data);
    let short = vec![0u8; 51];
    assert!(matches!(
        decode_return(&short, &vec![AbiType::Uint, AbiType::Address]),
        Err(AbiError::LengthMismatch)
    ));
    let long = vec![0u8; 53];
    assert!(matches!(
        decode_return(&long, &vec![AbiType::Uint, AbiType::Address]),
        Err(AbiError::LengthMismatch)
    ));
}

#[test]
fn decode_accepts_what_encode_produced() {
    let vals = vec![
        encode_parameter(b"uint256", &[1, 2, 3]).unwrap(),
        encode_parameter(b"address", &[9]).unwrap(),
        encode_parameter(b"int64", &[0x80]).unwrap(),
    ];
    let joined = abi_encode(vals);
    let kinds = vec![AbiType::Uint, AbiType::Address, AbiType::Int];
    assert_eq!(decode_return(&joined, &kinds).unwrap(), joined);
}

#[test]
fn keccak_matches_known_vector() {
    // keccak256("") starts with c5d24601...; the selector of the empty
    // string is its first four bytes.
    assert_eq!(get_sig(""), vec![0xc5, 0xd2, 0x46, 0x01]);
}
