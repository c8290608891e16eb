use homestar_ledger::cid::{Cid, RAW};
use homestar_ledger::codec::{decode, encode};
use homestar_ledger::error::{DecodeError, Field, LedgerError};
use homestar_ledger::instruction::{Instruction, InstructionResult};
use homestar_ledger::pointer::Pointer;
use homestar_ledger::prf::{Issuer, UcanPrf};
use homestar_ledger::receipt::{InvocationReceipt, LocalIpld, Receipt, INVOCATION_VERSION};
use homestar_ledger::value::{Value, ValueMap};
use homestar_ledger::version::SemVer;
use libipld::multihash::{Code, MultihashDigest};

fn instruction() -> Instruction {
    Instruction::new(
        "ipfs://bafkreidztuwoszw2dfnzufjpsjmzj67x574qcdm2autnhnv43o3t4zmh7i".to_string(),
        "ipld/fun".to_string(),
        Value::List(vec![Value::Bool(true)]),
    )
}

fn receipts() -> (InvocationReceipt, Receipt) {
    let h = Code::Blake3_256.digest(b"beep boop");
    let cid = Cid::new_v1(RAW, h.code(), h.digest().to_vec()).unwrap();
    let invocation = InvocationReceipt::new(
        Pointer::new(cid),
        InstructionResult::Success(Value::Bool(true)),
        Value::Null,
        None,
        UcanPrf::default(),
    );
    let receipt = Receipt::try_with(
        Pointer::new(instruction().to_cid().unwrap()),
        &invocation,
    )
    .unwrap();
    (invocation, receipt)
}

fn without(value: &Value, key: &str) -> Value {
    let outside_keys = [
        "cid",
        "ran",
        "instruction",
        "out",
        "meta",
        "iss",
        "prf",
        "version",
    ];
    let mut stripped = ValueMap::new();
    if let Value::StringMap(map) = value {
        for k in outside_keys {
            if k != key {
                if let Some(v) = map.get(k) {
                    stripped.insert(k.to_string(), v.clone());
                }
            }
        }
    }
    Value::StringMap(stripped)
}

#[test]
fn invocation_into_receipt() {
    let (invocation, receipt) = receipts();
    assert_eq!(invocation.ran().to_string(), receipt.ran());
    assert_eq!(invocation.out(), receipt.output());
    assert_eq!(invocation.meta(), receipt.meta());
    assert_eq!(invocation.issuer(), receipt.issuer());
    assert_eq!(invocation.prf(), receipt.prf());

    let output_bytes = encode(&invocation.out().to_value()).unwrap();
    assert_eq!(output_bytes, receipt.output_encoded().unwrap());
}

#[test]
fn receipt_to_json() {
    let (_, receipt) = receipts();
    assert_eq!(
        receipt.to_json().unwrap(),
        format!(
            r#"{{"cid":{{"/":"{}"}},"instruction":{{"/":"{}"}},"iss":null,"meta":null,"out":["ok",true],"prf":[],"ran":{{"/":"{}"}},"version":"{}"}}"#,
            receipt.cid(),
            receipt.instruction(),
            receipt.ran(),
            INVOCATION_VERSION
        )
    );
}

#[test]
fn receipt_bytes_roundtrip() {
    let (_, receipt) = receipts();
    let bytes: Vec<u8> = receipt.to_bytes().unwrap();
    let from_bytes = Receipt::from_bytes(&bytes).unwrap();

    assert_eq!(receipt, from_bytes);
}

#[test]
fn receipt_value_roundtrip_with_issuer_and_proofs() {
    let invocation = InvocationReceipt::new(
        Pointer::new(Cid::derive(b"ran")),
        InstructionResult::Error(Value::text("failed")),
        Value::List(vec![Value::Integer(-3), Value::Bytes(vec![1, 2])]),
        Some(Issuer::new("did:key:z6Mkk".to_string())),
        UcanPrf::new(vec![Cid::derive(b"first proof"), Cid::derive(b"second proof")]),
    );
    let receipt = Receipt::try_with(Pointer::new(Cid::derive(b"instruction")), &invocation).unwrap();
    let value = receipt.to_value();
    assert_eq!(Receipt::from_value(&value).unwrap(), receipt);
    let bytes = receipt.to_bytes().unwrap();
    assert_eq!(Receipt::from_bytes(&bytes).unwrap(), receipt);
    assert_eq!(receipt.to_invocation(), invocation);
    assert_eq!(receipt.clone().into_invocation(), invocation);
    assert_eq!(
        receipt.issuer().as_ref().unwrap().to_string(),
        "did:key:z6Mkk"
    );
}

#[test]
fn receipt_identifier_is_derived_from_the_issued_receipt() {
    let (invocation, receipt) = receipts();
    let derived = invocation.to_cid().unwrap();
    assert_eq!(receipt.cid(), derived.to_string());
    assert_eq!(receipt.cid_as_bytes(), derived.to_bytes());
    let again = receipt.to_invocation().to_cid().unwrap();
    assert_eq!(again, derived);
    let bytes = encode(&invocation.to_value()).unwrap();
    let expected = libipld::Cid::new_v1(0x71, Code::Sha3_256.digest(&bytes));
    assert_eq!(receipt.cid(), expected.to_string());
    assert_eq!(
        receipt.instruction(),
        instruction().to_cid().unwrap().to_string()
    );
    assert_eq!(
        receipt.instruction_cid_as_bytes(),
        instruction().to_cid().unwrap().to_bytes()
    );
}

#[test]
fn receipt_new_keeps_the_identifier_it_is_given() {
    let (invocation, _) = receipts();
    let given = Cid::derive(b"given beforehand");
    let receipt = Receipt::new(
        given.clone(),
        Pointer::new(Cid::derive(b"instruction")),
        &invocation,
    );
    assert_eq!(receipt.cid(), given.to_string());
    assert_eq!(receipt.version_text(), INVOCATION_VERSION);
}

#[test]
fn receipt_without_version_is_refused_naming_version() {
    let (_, receipt) = receipts();
    let stripped = without(&receipt.to_value(), "version");
    assert_eq!(
        Receipt::from_value(&stripped),
        Err(DecodeError::MissingField(Field::Version))
    );
    assert_eq!(Field::Version.name(), "version");
    let bytes = encode(&stripped).unwrap();
    assert_eq!(
        Receipt::from_bytes(&bytes),
        Err(LedgerError::Decoding(DecodeError::MissingField(Field::Version)))
    );
}

#[test]
fn receipt_decoding_names_each_missing_key() {
    let (_, receipt) = receipts();
    let value = receipt.to_value();
    let cases = [
        ("cid", Field::Cid),
        ("ran", Field::Ran),
        ("instruction", Field::Instruction),
        ("out", Field::Out),
        ("meta", Field::Meta),
        ("prf", Field::Prf),
        ("version", Field::Version),
    ];
    for (key, field) in cases {
        assert_eq!(
            Receipt::from_value(&without(&value, key)),
            Err(DecodeError::MissingField(field))
        );
    }
    let lenient = Receipt::from_value(&without(&value, "iss")).unwrap();
    assert_eq!(lenient, receipt);
    assert_eq!(Receipt::from_value(&Value::List(vec![])), Err(DecodeError::NotAMap));
}

#[test]
fn receipt_decoding_names_what_has_the_wrong_shape() {
    let (_, receipt) = receipts();
    let value = receipt.to_value();
    let replace = |key: &str, v: Value| {
        let mut replaced = without(&value, key);
        if let Value::StringMap(m) = &mut replaced {
            m.insert(key.to_string(), v);
        }
        replaced
    };
    assert_eq!(
        Receipt::from_value(&replace("cid", Value::text("x"))),
        Err(DecodeError::WrongShape(Field::Cid))
    );
    assert_eq!(
        Receipt::from_value(&replace("ran", Value::Null)),
        Err(DecodeError::WrongShape(Field::Ran))
    );
    assert_eq!(
        Receipt::from_value(&replace("instruction", Value::Integer(1))),
        Err(DecodeError::WrongShape(Field::Instruction))
    );
    assert_eq!(
        Receipt::from_value(&replace("version", Value::Integer(1))),
        Err(DecodeError::WrongShape(Field::Version))
    );
    assert_eq!(
        Receipt::from_value(&replace("out", Value::Null)),
        Err(DecodeError::WrongShape(Field::Out))
    );
    assert_eq!(
        Receipt::from_value(&replace(
            "out",
            Value::List(vec![Value::text("perhaps"), Value::Null])
        )),
        Err(DecodeError::UnknownTag("perhaps".to_string()))
    );
    assert_eq!(
        Receipt::from_value(&replace("out", Value::List(vec![Value::text("ok")]))),
        Err(DecodeError::WrongShape(Field::Out))
    );
    assert_eq!(
        Receipt::from_value(&replace("prf", Value::text("x"))),
        Err(DecodeError::WrongShape(Field::Prf))
    );
}

#[test]
fn receipt_issuer_may_be_absent_or_null_and_nothing_else_but_a_string() {
    let (_, receipt) = receipts();
    let value = receipt.to_value();
    let with_issuer = |v: Value| {
        let mut replaced = without(&value, "iss");
        if let Value::StringMap(m) = &mut replaced {
            m.insert("iss".to_string(), v);
        }
        replaced
    };
    for odd in [
        Value::Integer(5),
        Value::List(vec![]),
        Value::Bool(false),
        Value::Bytes(vec![1]),
        Value::Link(Cid::derive(b"who")),
    ] {
        assert_eq!(
            Receipt::from_value(&with_issuer(odd)),
            Err(DecodeError::WrongShape(Field::Iss))
        );
    }
    assert_eq!(Field::Iss.name(), "iss");
    let absent = Receipt::from_value(&without(&value, "iss")).unwrap();
    assert!(absent.issuer().is_none());
    let null = Receipt::from_value(&with_issuer(Value::Null)).unwrap();
    assert!(null.issuer().is_none());
    let named = Receipt::from_value(&with_issuer(Value::text("did:key:z6Mkk"))).unwrap();
    assert_eq!(
        named.issuer().as_ref().unwrap().to_string(),
        "did:key:z6Mkk"
    );
    let bytes = encode(&with_issuer(Value::Integer(5))).unwrap();
    assert_eq!(
        Receipt::from_bytes(&bytes),
        Err(LedgerError::Decoding(DecodeError::WrongShape(Field::Iss)))
    );
    let mut no_meta = without(&with_issuer(Value::Integer(5)), "meta");
    assert_eq!(
        Receipt::from_value(&no_meta),
        Err(DecodeError::MissingField(Field::Meta))
    );
    if let Value::StringMap(m) = &mut no_meta {
        m.insert("meta".to_string(), Value::Null);
    }
    assert_eq!(
        Receipt::from_value(&without(&no_meta, "prf")),
        Err(DecodeError::WrongShape(Field::Iss))
    );
}

#[test]
fn receipt_from_bytes_that_are_no_encoding_is_malformed() {
    assert_eq!(
        Receipt::from_bytes(&[0xff, 0x00]),
        Err(LedgerError::Decoding(DecodeError::Malformed))
    );
    assert_eq!(
        Receipt::from_bytes(&[]),
        Err(LedgerError::Decoding(DecodeError::Malformed))
    );
}

#[test]
fn receipt_version_is_a_semantic_version() {
    let (_, receipt) = receipts();
    assert_eq!(
        receipt.version(),
        Ok(SemVer {
            major: 0,
            minor: 2,
            patch: 0,
            pre: String::new(),
            build: String::new()
        })
    );
    assert_eq!(
        SemVer::parse("1.2.3-alpha.1+build.5"),
        Some(SemVer {
            major: 1,
            minor: 2,
            patch: 3,
            pre: "alpha.1".to_string(),
            build: "build.5".to_string()
        })
    );
    assert_eq!(SemVer::parse("1.q.r"), None);
    let mut odd = without(&receipt.to_value(), "version");
    if let Value::StringMap(m) = &mut odd {
        m.insert("version".to_string(), Value::text("not a version"));
    }
    let odd = Receipt::from_value(&odd).unwrap();
    assert_eq!(odd.version(), Err(LedgerError::InvalidVersion));
}

#[test]
fn receipt_set_meta_changes_the_metadata_only() {
    let (_, mut receipt) = receipts();
    let before = receipt.clone();
    receipt.set_meta(Value::text("note"));
    assert_eq!(receipt.meta(), &Value::text("note"));
    assert_eq!(receipt.cid(), before.cid());
    assert_eq!(receipt.ran(), before.ran());
    assert_eq!(receipt.output(), before.output());
    receipt.set_meta(Value::Null);
    assert_eq!(receipt, before);
}

#[test]
fn receipt_output_as_arg_keeps_tag_and_value() {
    let (_, receipt) = receipts();
    match receipt.output_as_arg() {
        InstructionResult::Success(arg) => assert_eq!(arg.into_value(), Value::Bool(true)),
        other => panic!("unexpected {:?}", other),
    }
}

#[test]
fn receipt_with_unencodable_metadata_cannot_be_made_or_encoded() {
    let invocation = InvocationReceipt::new(
        Pointer::new(Cid::derive(b"ran")),
        InstructionResult::Just(Value::Null),
        Value::Integer(i128::MAX),
        None,
        UcanPrf::default(),
    );
    assert_eq!(
        Receipt::try_with(Pointer::new(Cid::derive(b"i")), &invocation),
        Err(LedgerError::Encoding)
    );
    let receipt = Receipt::new(
        Cid::derive(b"c"),
        Pointer::new(Cid::derive(b"i")),
        &invocation,
    );
    assert_eq!(receipt.to_bytes(), Err(LedgerError::Encoding));
    let (_, fine) = receipts();
    let mut with_bad_output = fine.clone();
    with_bad_output.set_meta(Value::Integer(i128::MIN));
    assert_eq!(with_bad_output.to_bytes(), Err(LedgerError::Encoding));
    assert!(with_bad_output.output_encoded().is_ok());
}

#[test]
fn stored_metadata_bytes_roundtrip() {
    let mut map = ValueMap::new();
    map.insert("fuel".to_string(), Value::Integer(u64::MAX.into()));
    map.insert("time".to_string(), Value::Integer(100_000));
    let local = LocalIpld::new(Value::StringMap(map));
    let bytes = local.to_sql().unwrap();
    assert_eq!(bytes, encode(local.inner()).unwrap());
    let back = LocalIpld::from_sql(&bytes).unwrap();
    assert_eq!(back, local);
    assert_eq!(back.clone().into_inner(), decode(&bytes).unwrap());
    assert_eq!(
        LocalIpld::from_sql(&[0x5f]),
        Err(LedgerError::Decoding(DecodeError::Malformed))
    );
    assert_eq!(
        LocalIpld::new(Value::Integer(i128::MAX)).to_sql(),
        Err(LedgerError::Encoding)
    );
}

#[test]
fn receipt_made_from_an_issued_one_is_consistent_and_a_given_identifier_may_not_be() {
    let (invocation, receipt) = receipts();
    assert_eq!(receipt.is_consistent(), Ok(true));
    let given = Receipt::new(
        Cid::derive(b"given beforehand"),
        Pointer::new(Cid::derive(b"instruction")),
        &invocation,
    );
    assert_eq!(given.is_consistent(), Ok(false));
    let rederived = Receipt::new(
        invocation.to_cid().unwrap(),
        Pointer::new(Cid::derive(b"instruction")),
        &invocation,
    );
    assert_eq!(rederived.is_consistent(), Ok(true));
    let mut changed = receipt.clone();
    changed.set_meta(Value::text("changed"));
    assert_eq!(changed.is_consistent(), Ok(false));
    changed.set_meta(Value::Integer(i128::MAX));
    assert_eq!(changed.is_consistent(), Err(LedgerError::Encoding));
}

#[test]
fn identifier_derived_again_from_decoded_bytes_is_the_same() {
    let (invocation, receipt) = receipts();
    let bytes = receipt.to_bytes().unwrap();
    let decoded = Receipt::from_bytes(&bytes).unwrap();
    assert_eq!(decoded.is_consistent(), Ok(true));
    assert_eq!(
        decoded.to_invocation().to_cid().unwrap(),
        invocation.to_cid().unwrap()
    );
    assert_eq!(decoded.to_bytes().unwrap(), bytes);
    assert_eq!(
        Cid::derive(&decoded.to_bytes().unwrap()),
        Cid::derive(&bytes)
    );
}
