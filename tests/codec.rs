use alloy_primitives::Bytes;
use alloy_sol_types::SolValue;
use fil_abi_bridge::abi::{decode, decode_strict, encode, AbiError, AbiType, AbiValue};
use fil_abi_bridge::post_proof::RegisteredPoStProof;
use fil_abi_bridge::bigint::{bigint_type, BigInt};

fn tup(ts: Vec<AbiType>) -> AbiType {
    AbiType::Tuple(ts)
}

fn arr(t: AbiType) -> AbiType {
    AbiType::Array(Box::new(t))
}

fn list(vs: Vec<AbiValue>) -> AbiValue {
    AbiValue::List(vs)
}

fn bytes(b: &[u8]) -> AbiValue {
    AbiValue::Bytes(b.to_vec())
}

fn fil_address_type() -> AbiType {
    tup(vec![AbiType::Bytes])
}

fn round_trip(t: &AbiType, v: &AbiValue) -> Vec<u8> {
    assert!(t.is_well_formed());
    assert!(v.conforms_to(t));
    let encoded = encode(t, v).unwrap();
    let decoded = decode(t, &encoded).unwrap();
    assert_eq!(format!("{:?}", decoded), format!("{:?}", v));
    encoded
}

fn word(last: &[u8]) -> Vec<u8> {
    let mut w = vec![0u8; 32 - last.len()];
    w.extend_from_slice(last);
    w
}

#[test]
fn scalar_words_are_exact() {
    let t = tup(vec![AbiType::Uint(64), AbiType::Int64, AbiType::Bool, AbiType::Enum(11)]);
    let v = list(vec![
        AbiValue::Uint(0x0102),
        AbiValue::Int(-1),
        AbiValue::Bool(true),
        AbiValue::Uint(10),
    ]);
    let encoded = round_trip(&t, &v);
    let mut expected = word(&[0x01, 0x02]);
    expected.extend(vec![0xffu8; 32]);
    expected.extend(word(&[1]));
    expected.extend(word(&[10]));
    assert_eq!(encoded, expected);
    let alloy = (0x0102u64, -1i64, true, 10u16).abi_encode_params();
    assert_eq!(encoded, alloy);
}

#[test]
fn dynamic_fields_match_reference_encoder() {
    let t = tup(vec![AbiType::Bytes, AbiType::Uint(32), AbiType::Str, arr(AbiType::Uint(64))]);
    let v = list(vec![
        bytes(&[1, 2, 3]),
        AbiValue::Uint(7),
        bytes(b"a string longer than one word of thirty-two bytes"),
        list(vec![AbiValue::Uint(5), AbiValue::Uint(6)]),
    ]);
    let encoded = round_trip(&t, &v);
    let alloy = (
        Bytes::from(vec![1u8, 2, 3]),
        7u32,
        String::from("a string longer than one word of thirty-two bytes"),
        vec![5u64, 6u64],
    )
        .abi_encode_params();
    assert_eq!(encoded, alloy);
}

#[test]
fn transfer_params_round_trip() {
    // TransferParams { operator_data, to, amount } with amount 2 * 10^18.
    let amount = BigInt::from_i128(2_000_000_000_000_000_000);
    assert_eq!(amount.magnitude, vec![0x1B, 0xC1, 0x6D, 0x67, 0x4E, 0xC8, 0x00, 0x00]);
    assert!(!amount.negative);
    let to = vec![0x00u8, 0xE8, 0x07];
    let params = tup(vec![AbiType::Bytes, fil_address_type(), bigint_type()]);
    let call_args = tup(vec![params]);
    let v = list(vec![list(vec![bytes(&[]), list(vec![bytes(&to)]), amount.to_abi()])]);
    let encoded = round_trip(&call_args, &v);
    let alloy = (Bytes::new(), (Bytes::from(to.clone()),), (Bytes::from(amount.magnitude.clone()), false))
        .abi_encode();
    assert_eq!(encoded, alloy);
    let decoded = decode(&call_args, &encoded).unwrap();
    let outer = match decoded {
        AbiValue::List(outer) => outer,
        _ => panic!("not a tuple"),
    };
    let fields = match &outer[0] {
        AbiValue::List(f) => f,
        _ => panic!("not a struct"),
    };
    assert!(matches!(&fields[0], AbiValue::Bytes(b) if b.is_empty()));
    assert!(matches!(&fields[1], AbiValue::List(a) if matches!(&a[0], AbiValue::Bytes(b) if *b == to)));
    let back = BigInt::from_abi(&fields[2]).unwrap();
    assert_eq!(back.magnitude, amount.magnitude);
    assert!(!back.negative);
    assert_eq!(back.to_i128(), Some(2_000_000_000_000_000_000));
}

#[test]
fn batch_return_with_no_fail_codes() {
    let fail_code = tup(vec![AbiType::Uint(32), AbiType::Uint(32)]);
    let batch = tup(vec![AbiType::Uint(32), arr(fail_code)]);
    let outputs = tup(vec![batch]);
    let v = list(vec![list(vec![AbiValue::Uint(1), list(vec![])])]);
    let encoded = round_trip(&outputs, &v);
    let mut expected = word(&[0x20]);
    expected.extend(word(&[1]));
    expected.extend(word(&[0x40]));
    expected.extend(word(&[0]));
    assert_eq!(encoded, expected);
    match decode(&outputs, &encoded).unwrap() {
        AbiValue::List(outer) => match &outer[0] {
            AbiValue::List(fields) => {
                assert!(matches!(fields[0], AbiValue::Uint(1)));
                assert!(matches!(&fields[1], AbiValue::List(codes) if codes.is_empty()));
            },
            _ => panic!("not a struct"),
        },
        _ => panic!("not a tuple"),
    }
}

#[test]
fn pair_with_empty_nested_array_then_static_struct() {
    let vesting = tup(vec![AbiType::Int64, bigint_type()]);
    let first = tup(vec![arr(vesting)]);
    let second = tup(vec![AbiType::Uint(64), AbiType::Int64, AbiType::Bool]);
    let t = tup(vec![first, second]);
    let v = list(vec![
        list(vec![list(vec![])]),
        list(vec![AbiValue::Uint(5), AbiValue::Int(-3), AbiValue::Bool(true)]),
    ]);
    let encoded = round_trip(&t, &v);
    let empty: Vec<(i64, (Bytes, bool))> = vec![];
    let alloy = ((empty,), (5u64, -3i64, true)).abi_encode_params();
    assert_eq!(encoded, alloy);
    // Head: one offset word for the dynamic first member, three inline words.
    assert_eq!(encoded.len(), 32 * 4 + 32 + 32);
    match decode(&t, &encoded).unwrap() {
        AbiValue::List(members) => {
            assert!(matches!(&members[0], AbiValue::List(f) if matches!(&f[0], AbiValue::List(a) if a.is_empty())));
            assert!(matches!(&members[1], AbiValue::List(f)
                if matches!(f[0], AbiValue::Uint(5)) && matches!(f[1], AbiValue::Int(-3)) && matches!(f[2], AbiValue::Bool(true))));
        },
        _ => panic!("not a tuple"),
    }
}

#[test]
fn swapped_dynamic_members_decode_to_same_values() {
    let inner = tup(vec![AbiType::Bytes, arr(AbiType::Uint(32))]);
    let inner_value = list(vec![bytes(&[9u8; 40]), list(vec![AbiValue::Uint(1), AbiValue::Uint(2)])]);
    let a = tup(vec![inner, AbiType::Str]);
    let va = list(vec![inner_value, bytes(b"short")]);
    let inner2 = tup(vec![AbiType::Bytes, arr(AbiType::Uint(32))]);
    let inner_value2 = list(vec![bytes(&[9u8; 40]), list(vec![AbiValue::Uint(1), AbiValue::Uint(2)])]);
    let b = tup(vec![AbiType::Str, inner2]);
    let vb = list(vec![bytes(b"short"), inner_value2]);
    let ea = round_trip(&a, &va);
    let eb = round_trip(&b, &vb);
    assert_ne!(ea, eb);
    let (da, db) = match (decode(&a, &ea).unwrap(), decode(&b, &eb).unwrap()) {
        (AbiValue::List(x), AbiValue::List(y)) => (x, y),
        _ => panic!("not tuples"),
    };
    assert_eq!(format!("{:?}", da[0]), format!("{:?}", db[1]));
    assert_eq!(format!("{:?}", da[1]), format!("{:?}", db[0]));
}

#[test]
fn decoding_errors() {
    let t = tup(vec![AbiType::Bool]);
    assert!(matches!(decode(&t, &vec![0u8; 31]), Err(AbiError::TruncatedInput)));
    assert!(matches!(decode(&t, &word(&[2])), Err(AbiError::InvalidWord)));
    let e = tup(vec![AbiType::Enum(11)]);
    assert!(matches!(decode(&e, &word(&[11])), Err(AbiError::InvalidWord)));
    let d = tup(vec![AbiType::Bytes]);
    assert!(matches!(decode(&d, &word(&[0x40])), Err(AbiError::OffsetOutOfRange)));
    let mut short = word(&[0x20]);
    short.extend(word(&[5]));
    short.extend(vec![1u8, 2]);
    assert!(matches!(decode(&d, &short), Err(AbiError::TruncatedInput)));
}

#[test]
fn schema_checks() {
    assert!(!tup(vec![]).is_well_formed());
    assert!(!AbiType::Uint(12).is_well_formed());
    assert!(AbiType::FixedArray(Box::new(AbiType::Uint(8)), 3).is_well_formed());
    assert!(!AbiType::Bool.is_dynamic());
    assert!(tup(vec![AbiType::Bool, arr(AbiType::Bool)]).is_dynamic());
    assert!(!AbiValue::Uint(256).conforms_to(&AbiType::Uint(8)));
    assert!(AbiValue::Uint(255).conforms_to(&AbiType::Uint(8)));
    assert!(!AbiValue::Word(vec![0u8; 19]).conforms_to(&AbiType::Address));
}

#[test]
fn fixed_array_and_address() {
    let t = tup(vec![AbiType::FixedArray(Box::new(AbiType::Uint(8)), 2), AbiType::Address, AbiType::Uint256]);
    let v = list(vec![
        list(vec![AbiValue::Uint(1), AbiValue::Uint(2)]),
        AbiValue::Word(vec![0xAAu8; 20]),
        AbiValue::Word(vec![0x11u8; 32]),
    ]);
    let encoded = round_trip(&t, &v);
    assert_eq!(encoded.len(), 4 * 32);
    assert_eq!(&encoded[64..76], &[0u8; 12]);
    assert_eq!(&encoded[76..96], &[0xAAu8; 20]);
}

#[test]
fn bigint_canonical_forms() {
    let zero = BigInt::from_i128(0);
    assert!(zero.magnitude.is_empty());
    assert!(!zero.negative);
    let negative_zero = BigInt { magnitude: vec![0, 0], negative: true }.to_canonical();
    assert!(negative_zero.magnitude.is_empty());
    assert!(!negative_zero.negative);
    assert_eq!(negative_zero.to_i128(), Some(0));
    let padded = BigInt { magnitude: vec![0, 0, 1, 0], negative: true }.to_canonical();
    assert_eq!(padded.magnitude, vec![1, 0]);
    assert!(padded.negative);
    for n in [1i128, -1, 255, 256, -65536, i128::MAX, i128::MIN, 123_456_789_012_345_678] {
        assert_eq!(BigInt::from_i128(n).to_i128(), Some(n));
    }
    assert_eq!(BigInt::from_i128(-256).magnitude, vec![1, 0]);
    let too_big = BigInt { magnitude: vec![1u8; 17], negative: false };
    assert_eq!(too_big.to_i128(), None);
    let min_magnitude = BigInt::from_i128(i128::MIN).magnitude;
    assert_eq!(BigInt { magnitude: min_magnitude, negative: false }.to_i128(), None);
}

#[test]
fn bigint_abi_mapping_accepts_leading_zeros() {
    let v = list(vec![bytes(&[0, 5]), AbiValue::Bool(true)]);
    let b = BigInt::from_abi(&v).unwrap();
    assert_eq!(b.magnitude, vec![0, 5]);
    assert_eq!(b.to_canonical().magnitude, vec![5]);
    assert_eq!(b.to_i128(), Some(-5));
    assert!(BigInt::from_abi(&list(vec![bytes(&[1])])).is_none());
}

#[test]
fn strict_decoding_rejects_non_canonical_bytes() {
    let t = tup(vec![AbiType::Bytes]);
    let v = list(vec![bytes(&[1, 2, 3])]);
    let encoded = encode(&t, &v).unwrap();
    assert!(decode_strict(&t, &encoded).is_ok());
    let mut trailing = encoded.clone();
    trailing.extend(vec![0u8; 32]);
    assert!(decode(&t, &trailing).is_ok());
    assert!(matches!(decode_strict(&t, &trailing), Err(AbiError::SchemaMismatch)));
    let mut dirty_padding = encoded.clone();
    let last = dirty_padding.len() - 1;
    dirty_padding[last] = 1;
    assert!(matches!(decode_strict(&t, &dirty_padding), Err(AbiError::SchemaMismatch)));
    assert!(matches!(decode_strict(&t, &encoded[..40].to_vec()), Err(AbiError::TruncatedInput)));
}

#[test]
fn proof_type_ordinals() {
    assert_eq!(RegisteredPoStProof::StackedDRGWinning2KiBV1.ordinal(), 0);
    assert_eq!(RegisteredPoStProof::StackedDRGWindow32GiBV1.ordinal(), 8);
    assert_eq!(RegisteredPoStProof::Invalid.ordinal(), 10);
    assert_eq!(RegisteredPoStProof::from_ordinal(8), Some(RegisteredPoStProof::StackedDRGWindow32GiBV1));
    assert_eq!(RegisteredPoStProof::from_ordinal(11), None);
    let t = tup(vec![AbiType::Enum(11)]);
    let v = list(vec![RegisteredPoStProof::StackedDRGWindow2KiBV1.to_abi()]);
    let encoded = round_trip(&t, &v);
    assert_eq!(encoded, word(&[5]));
}
