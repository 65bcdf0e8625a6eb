use fil_abi_bridge::abi::{decode, encode, AbiType, AbiValue};
use fil_abi_bridge::bigint::BigInt;
use fil_abi_bridge::bridge::{build_call, decode_return, encode_call, parse_outcome, parse_return, BridgeError};
use fil_abi_bridge::envelope::{cbor_encode, unwrap, wrap, EnvelopeError};
use fil_abi_bridge::hexcode::decode_hex;
use fil_abi_bridge::registry::{method_for, method_for_signature, schema_for, ActorFamily, MethodSignature, RegistryError};
use fil_abi_bridge::selector::{selector_for, selector_for_bytes, signature};

#[test]
fn wrap_unwrap_identity() {
    for len in [0usize, 1, 23, 24, 255, 256, 300, 70_000] {
        let b: Vec<u8> = (0..len).map(|i| (i % 251) as u8).collect();
        let env = wrap(&b);
        assert_eq!(env[0], 0x81);
        assert_eq!(unwrap(&env).unwrap(), b);
    }
    assert_eq!(wrap(&vec![]), vec![0x81, 0x40]);
    assert_eq!(wrap(&b"hello".to_vec()), vec![0x81, 0x45, b'h', b'e', b'l', b'l', b'o']);
    assert_eq!(wrap(&vec![7u8; 24])[..3], [0x81, 0x58, 24]);
    assert_eq!(wrap(&vec![7u8; 300])[..4], [0x81, 0x59, 0x01, 0x2c]);
}

#[test]
fn unwrap_rejects_other_shapes() {
    let bad = [
        vec![],
        vec![0x82, 0x41, 1, 0x41, 2],
        vec![0x81, 0x61, b'a'],
        vec![0x81, 0x42, 1],
        vec![0x81, 0x41, 1, 2],
        vec![0x81, 0x5f, 0x41, 1, 0xff],
    ];
    for e in bad.iter() {
        assert_eq!(unwrap(e), Err(EnvelopeError::EnvelopeFormatError));
    }
    assert_eq!(unwrap(&vec![0x81, 0x58, 2, 9, 8]).unwrap(), vec![9, 8]);
}

#[test]
fn cbor_encode_drops_array_head() {
    assert_eq!(cbor_encode(vec![1, 2, 3]), "43010203");
    assert_eq!(cbor_encode(vec![]), "40");
    assert_eq!(cbor_encode(vec![0xab; 24]), format!("5818{}", "ab".repeat(24)));
}

#[test]
fn selectors_are_stable_and_known() {
    assert_eq!(selector_for("transfer(address,uint256)"), vec![0xa9, 0x05, 0x9c, 0xbb]);
    assert_eq!(selector_for("balanceOf(address)"), vec![0x70, 0xa0, 0x82, 0x31]);
    let a = selector_for("send(uint64,uint256)");
    let b = selector_for_bytes(&b"send(uint64,uint256)".to_vec());
    assert_eq!(a, b);
    assert_eq!(a, selector_for("send(uint64,uint256)"));
    assert_ne!(a, selector_for("send((bytes),uint256)"));
}

#[test]
fn canonical_signatures() {
    let m = method_for(ActorFamily::Datacap, "transfer").unwrap();
    assert_eq!(signature(m.name, &m.params), b"transfer((bytes,(bytes),(bytes,bool)))".to_vec());
    let m = method_for(ActorFamily::Market, "publish_storage_deals").unwrap();
    assert_eq!(
        String::from_utf8(signature(m.name, &m.params)).unwrap(),
        "publish_storage_deals(((((bytes),uint64,bool,(bytes),(bytes),(bytes,bool),int64,int64,(bytes,bool),(bytes,bool),(bytes,bool)),bytes)[]))"
    );
    let m = method_for(ActorFamily::Power, "create_miner").unwrap();
    assert_eq!(
        String::from_utf8(signature(m.name, &m.params)).unwrap(),
        "create_miner(((bytes),(bytes),uint8,(bytes),(bytes)[]),uint256)"
    );
    let fixed = AbiType::Tuple(vec![AbiType::FixedArray(Box::new(AbiType::Uint(16)), 12)]);
    assert_eq!(signature("f", &fixed), b"f(uint16[12])".to_vec());
}

#[test]
fn registry_lookups() {
    assert!(method_for(ActorFamily::Miner, "get_beneficiary").is_ok());
    assert!(matches!(method_for(ActorFamily::Miner, "transfer"), Err(RegistryError::UnknownMethod)));
    assert!(schema_for(ActorFamily::Market, "DealProposal").unwrap().is_well_formed());
    assert!(matches!(schema_for(ActorFamily::Account, "DealProposal"), Err(RegistryError::UnknownType)));
    for f in [
        ActorFamily::Account,
        ActorFamily::Datacap,
        ActorFamily::Market,
        ActorFamily::Power,
        ActorFamily::Miner,
        ActorFamily::VerifiedRegistry,
        ActorFamily::Send,
        ActorFamily::Precompiles,
    ] {
        for m in fil_abi_bridge::registry::family_methods(f) {
            if let AbiType::Tuple(ps) = &m.params {
                assert!(ps.is_empty() || m.params.is_well_formed(), "{}", m.name);
            }
            if let Some(o) = &m.outputs {
                assert!(o.is_well_formed(), "{}", m.name);
            }
        }
        for s in fil_abi_bridge::registry::family_schemas(f) {
            assert!(s.schema.is_well_formed(), "{}", s.name);
        }
    }
}

#[test]
fn build_call_for_balance() {
    let addr = AbiValue::List(vec![AbiValue::Bytes(vec![0x00, 0x66])]);
    let args = AbiValue::List(vec![addr]);
    let env = build_call(ActorFamily::Datacap, "balance", &args).unwrap();
    let call = unwrap(&env).unwrap();
    assert_eq!(call[..4], selector_for("balance((bytes))")[..]);
    let params = AbiType::Tuple(vec![AbiType::Tuple(vec![AbiType::Bytes])]);
    assert_eq!(call[4..], encode(&params, &args).unwrap()[..]);
    assert_eq!(build_call(ActorFamily::Datacap, "nope", &args), Err(BridgeError::UnknownMethod));
    let wrong = AbiValue::List(vec![AbiValue::Bool(true)]);
    assert_eq!(build_call(ActorFamily::Datacap, "balance", &wrong), Err(BridgeError::ArgumentMismatch));
}

#[test]
fn call_without_parameters() {
    let m = method_for(ActorFamily::Datacap, "name").unwrap();
    let call = encode_call(&m, &AbiValue::List(vec![])).unwrap();
    assert_eq!(call, selector_for("name()"));
    assert_eq!(encode_call(&m, &AbiValue::List(vec![AbiValue::Bool(true)])), Err(BridgeError::ArgumentMismatch));
}

#[test]
fn parse_bigint_return() {
    let value = BigInt::from_i128(-1000);
    let outputs = AbiType::Tuple(vec![fil_abi_bridge::bigint::bigint_type()]);
    let raw = encode(&outputs, &AbiValue::List(vec![value.to_abi()])).unwrap();
    let parsed = parse_return(ActorFamily::Datacap, "balance", &raw).unwrap();
    let fields = match parsed {
        AbiValue::List(v) => v,
        _ => panic!("not a tuple"),
    };
    assert_eq!(BigInt::from_abi(&fields[0]).unwrap().to_i128(), Some(-1000));
    assert!(matches!(parse_return(ActorFamily::Datacap, "balance", &vec![1, 2]), Err(BridgeError::Decode(_))));
    assert!(matches!(parse_outcome(ActorFamily::Datacap, "balance", 16, &raw), Err(BridgeError::ActorExecutionFailure(16))));
    assert!(parse_outcome(ActorFamily::Datacap, "balance", 0, &raw).is_ok());
    let none = method_for(ActorFamily::Miner, "repay_debt").unwrap();
    assert!(matches!(decode_return(&none, &vec![]), Ok(AbiValue::List(v)) if v.is_empty()));
    let _ = decode(&outputs, &raw).unwrap();
}

#[test]
fn hex_text_decoding() {
    assert_eq!(decode_hex(&b"0aFf10".to_vec()), Some(vec![0x0a, 0xff, 0x10]));
    assert_eq!(decode_hex(&b"".to_vec()), Some(vec![]));
    assert_eq!(decode_hex(&b"abc".to_vec()), None);
    assert_eq!(decode_hex(&b"0g".to_vec()), None);
}

#[test]
fn schemas_the_codec_refuses() {
    let m = MethodSignature {
        name: "f",
        params: AbiType::Tuple(vec![AbiType::Uint(12)]),
        outputs: Some(AbiType::Tuple(vec![AbiType::Uint(12)])),
    };
    let args = AbiValue::List(vec![AbiValue::Uint(1)]);
    assert_eq!(encode_call(&m, &args), Err(BridgeError::InvalidSchema));
    assert!(matches!(decode_return(&m, &vec![0u8; 32]), Err(BridgeError::InvalidSchema)));
}

#[test]
fn overloads_are_told_apart_by_signature() {
    let by_id = method_for_signature(ActorFamily::Send, "send(uint64,uint256)").unwrap();
    let by_address = method_for_signature(ActorFamily::Send, "send((bytes),uint256)").unwrap();
    assert_eq!(signature(by_id.name, &by_id.params), b"send(uint64,uint256)".to_vec());
    assert_eq!(signature(by_address.name, &by_address.params), b"send((bytes),uint256)".to_vec());
    assert!(matches!(method_for_signature(ActorFamily::Send, "send(uint256)"), Err(RegistryError::UnknownMethod)));
}
