use clarity::vm::Value;
use stackerdb_config::names::NameMap;
use stackerdb_config::slots::SignerSlots;
use stackerdb_config::types::{
    Hash160, Limits, NetError, PrincipalData, QualifiedContractIdentifier, StackerDBConfig,
    StacksAddress, StandardPrincipalData,
};
use stackerdb_config::value::{AbortData, ClarityValue, ResponseData};

const ID: &str = "SP000000000000000000002Q6VF78.db";

fn id() -> QualifiedContractIdentifier {
    QualifiedContractIdentifier {
        issuer: StandardPrincipalData(22, [0; 20]),
        name: "db".to_string(),
    }
}

fn ok(value: ClarityValue) -> ClarityValue {
    ClarityValue::Response(ResponseData::Committed(Box::new(value)))
}

fn err(value: Value) -> ClarityValue {
    let abort = AbortData::new(value.serialize_to_vec().unwrap()).unwrap();
    ClarityValue::Response(ResponseData::Aborted(abort))
}

fn invalid<T>(reason: String) -> Result<T, NetError> {
    Err(NetError::InvalidStackerDBContract(id(), reason))
}

fn tuple(fields: Vec<(&str, ClarityValue)>) -> ClarityValue {
    let mut map = NameMap::new();
    for (name, value) in fields {
        map.insert(name.to_string(), value);
    }
    ClarityValue::Tuple(map)
}

fn account(n: u8) -> ClarityValue {
    ClarityValue::Principal(PrincipalData::Standard(StandardPrincipalData(26, [n; 20])))
}

fn address(n: u8) -> StacksAddress {
    StacksAddress {
        version: 26,
        bytes: Hash160([n; 20]),
    }
}

fn entry(n: u8, slots: u128) -> ClarityValue {
    tuple(vec![
        ("signer", account(n)),
        ("num-slots", ClarityValue::UInt(slots)),
    ])
}

fn page(entries: Vec<ClarityValue>) -> ClarityValue {
    ok(ClarityValue::List(entries))
}

fn limits(inv_max: u32) -> Limits {
    Limits {
        inv_max,
        max_chunk_size: 2048,
    }
}

fn none() -> SignerSlots {
    SignerSlots {
        signers: vec![],
        total: 0,
    }
}

#[test]
fn identifier_is_written_with_the_address_of_its_issuer() {
    assert_eq!(id().text(), ID);
    let testnet = QualifiedContractIdentifier {
        issuer: StandardPrincipalData(26, [0; 20]),
        name: "other-db".to_string(),
    };
    assert_eq!(testnet.text(), "ST000000000000000000002AMW42H.other-db");
    assert_eq!(testnet.clone(), testnet);
}

#[test]
fn page_count_is_read_up_to_the_largest() {
    for count in [0, 1, 7, u32::MAX] {
        let value = ok(ClarityValue::UInt(count.into()));
        assert_eq!(StackerDBConfig::eval_page_count(&value, &id()), Ok(count));
    }
}

#[test]
fn page_count_out_of_range_is_refused() {
    for count in [1u128 << 32, u128::MAX] {
        assert_eq!(
            StackerDBConfig::eval_page_count(&ok(ClarityValue::UInt(count)), &id()),
            invalid(format!(
                "StackerDB fn `{ID}.stackerdb-get-page-count` returned page count outside of u32 range"
            ))
        );
    }
}

#[test]
fn page_count_must_be_a_response_with_a_number() {
    assert_eq!(
        StackerDBConfig::eval_page_count(&ClarityValue::UInt(1), &id()),
        invalid(format!(
            "StackerDB fn `{ID}.stackerdb-get-page-count` returned unexpected non-response type"
        ))
    );
    assert_eq!(
        StackerDBConfig::eval_page_count(&ok(ClarityValue::Other), &id()),
        invalid(format!(
            "StackerDB fn `{ID}.stackerdb-get-page-count` returned unexpected non-uint ok type"
        ))
    );
}

#[test]
fn page_count_failure_shows_the_error_value() {
    assert_eq!(
        StackerDBConfig::eval_page_count(
            &err(Value::Bool(false)),
            &id()
        ),
        invalid(format!(
            "StackerDB fn `{ID}.stackerdb-get-page-count` failed: error false"
        ))
    );
    assert_eq!(
        StackerDBConfig::eval_page_count(
            &err(Value::UInt(3)),
            &id()
        ),
        invalid(format!(
            "StackerDB fn `{ID}.stackerdb-get-page-count` failed: error u3"
        ))
    );
}

#[test]
fn slot_entry_gives_address_and_slots() {
    assert_eq!(
        StackerDBConfig::parse_slot_entry(&entry(5, 4096), &id()),
        Ok((address(5), 4096))
    );
    assert_eq!(
        StackerDBConfig::parse_slot_entry(&entry(6, 0), &id()),
        Ok((address(6), 0))
    );
}

#[test]
fn slot_entry_must_be_a_tuple_with_both_fields() {
    assert_eq!(
        StackerDBConfig::parse_slot_entry(&ClarityValue::UInt(1), &id()),
        Err(format!(
            "StackerDB fn `{ID}.stackerdb-get-signer-slots` returned non-tuple slot entry"
        ))
    );
    let no_signer = format!(
        "StackerDB fn `{ID}.stackerdb-get-signer-slots` returned tuple without `signer` entry of type `principal`"
    );
    assert_eq!(
        StackerDBConfig::parse_slot_entry(
            &tuple(vec![("num-slots", ClarityValue::UInt(1))]),
            &id()
        ),
        Err(no_signer.clone())
    );
    assert_eq!(
        StackerDBConfig::parse_slot_entry(
            &tuple(vec![
                ("signer", ClarityValue::UInt(1)),
                ("num-slots", ClarityValue::UInt(1))
            ]),
            &id()
        ),
        Err(no_signer)
    );
    let no_slots = format!(
        "StackerDB fn `{ID}.stackerdb-get-signer-slots` returned tuple without `num-slots` entry of type `uint`"
    );
    assert_eq!(
        StackerDBConfig::parse_slot_entry(&tuple(vec![("signer", account(1))]), &id()),
        Err(no_slots.clone())
    );
    assert_eq!(
        StackerDBConfig::parse_slot_entry(
            &tuple(vec![("signer", account(1)), ("num-slots", account(1))]),
            &id()
        ),
        Err(no_slots)
    );
}

#[test]
fn slot_entry_with_too_many_slots_is_refused() {
    for slots in [4097, 1u128 << 32, u128::MAX] {
        assert_eq!(
            StackerDBConfig::parse_slot_entry(&entry(1, slots), &id()),
            Err(format!(
                "Contract `{ID}` set too many slots for one signer (max = 4096)"
            ))
        );
    }
}

#[test]
fn contract_cannot_be_a_signer() {
    let signer = ClarityValue::Principal(PrincipalData::Contract(id()));
    let value = tuple(vec![("signer", signer), ("num-slots", ClarityValue::UInt(1))]);
    assert_eq!(
        StackerDBConfig::parse_slot_entry(&value, &id()),
        Err(format!(
            "StackerDB contract `{ID}` set a contract principal as a writer, which is not supported"
        ))
    );
    // the slots are looked at first
    let signer = ClarityValue::Principal(PrincipalData::Contract(id()));
    let value = tuple(vec![("signer", signer), ("num-slots", ClarityValue::UInt(5000))]);
    assert_eq!(
        StackerDBConfig::parse_slot_entry(&value, &id()),
        Err(format!(
            "Contract `{ID}` set too many slots for one signer (max = 4096)"
        ))
    );
}

#[test]
fn page_has_its_entries_in_order_and_their_total() {
    assert_eq!(
        StackerDBConfig::eval_signer_slots_page(
            &page(vec![entry(3, 4000), entry(1, 0), entry(3, 96)]),
            &id()
        ),
        Ok((vec![(address(3), 4000), (address(1), 0), (address(3), 96)], 4096))
    );
    assert_eq!(
        StackerDBConfig::eval_signer_slots_page(&page(vec![]), &id()),
        Ok((vec![], 0))
    );
}

#[test]
fn page_with_too_many_slots_is_refused() {
    assert_eq!(
        StackerDBConfig::eval_signer_slots_page(
            &page(vec![entry(3, 4000), entry(1, 97), ClarityValue::Other]),
            &id()
        ),
        invalid(format!(
            "Contract {ID} set more than the maximum number of slots"
        ))
    );
}

#[test]
fn page_with_a_bad_entry_is_refused() {
    assert_eq!(
        StackerDBConfig::eval_signer_slots_page(
            &page(vec![entry(3, 1), ClarityValue::Other, entry(1, 5000)]),
            &id()
        ),
        invalid(format!(
            "StackerDB fn `{ID}.stackerdb-get-signer-slots` returned non-tuple slot entry"
        ))
    );
}

#[test]
fn page_must_be_a_response_with_a_list() {
    assert_eq!(
        StackerDBConfig::eval_signer_slots_page(&ClarityValue::List(vec![]), &id()),
        invalid(format!(
            "StackerDB fn `{ID}.stackerdb-get-signer-slots` returned unexpected non-response type"
        ))
    );
    assert_eq!(
        StackerDBConfig::eval_signer_slots_page(&ok(ClarityValue::UInt(1)), &id()),
        invalid(format!(
            "StackerDB fn `{ID}.stackerdb-get-signer-slots` returned unexpected non-list ok type"
        ))
    );
    assert_eq!(
        StackerDBConfig::eval_signer_slots_page(
            &err(Value::UInt(12)),
            &id()
        ),
        invalid(format!(
            "StackerDB fn `{ID}.stackerdb-get-signer-slots` failed: error u12"
        ))
    );
}

#[test]
fn pages_are_joined_in_order() {
    let first = StackerDBConfig::eval_signer_slots(
        none(),
        &page(vec![entry(2, 4096)]),
        &id(),
        &limits(4099),
    )
    .unwrap();
    assert_eq!(first.total, 4096);
    let both = StackerDBConfig::eval_signer_slots(
        first,
        &page(vec![entry(1, 1), entry(9, 2)]),
        &id(),
        &limits(4099),
    )
    .unwrap();
    assert_eq!(both.total, 4099);
    assert_eq!(
        both.signers,
        vec![(address(2), 4096), (address(1), 1), (address(9), 2)]
    );
}

#[test]
fn pages_with_too_many_slots_together_are_refused() {
    let before = SignerSlots {
        signers: vec![(address(2), 4096)],
        total: 4096,
    };
    assert_eq!(
        StackerDBConfig::eval_signer_slots(
            before,
            &page(vec![entry(1, 3)]),
            &id(),
            &limits(4098)
        )
        .unwrap_err(),
        NetError::InvalidStackerDBContract(
            id(),
            format!(
                "Contract {ID} set more than the maximum number of slots in a page (max = 4096)"
            )
        )
    );
}

#[test]
fn count_of_slots_goes_out_of_range_only_without_a_limit() {
    let before = || SignerSlots {
        signers: vec![],
        total: u32::MAX - 1,
    };
    assert_eq!(
        StackerDBConfig::eval_signer_slots(
            before(),
            &page(vec![entry(1, 2)]),
            &id(),
            &limits(u32::MAX)
        )
        .unwrap_err(),
        NetError::OverflowError(format!("Contract {ID} set more than u32::MAX slots"))
    );
    assert_eq!(
        StackerDBConfig::eval_signer_slots(
            before(),
            &page(vec![entry(1, 1)]),
            &id(),
            &limits(u32::MAX)
        )
        .unwrap()
        .total,
        u32::MAX
    );
}

#[test]
fn bad_page_is_refused_whatever_came_before() {
    let before = SignerSlots {
        signers: vec![(address(2), 1)],
        total: 1,
    };
    assert_eq!(
        StackerDBConfig::eval_signer_slots(before, &ClarityValue::Other, &id(), &limits(0))
            .unwrap_err(),
        NetError::InvalidStackerDBContract(
            id(),
            format!(
                "StackerDB fn `{ID}.stackerdb-get-signer-slots` returned unexpected non-response type"
            )
        )
    );
}

#[test]
fn err_value_is_shown_as_the_virtual_machine_prints_it() {
    for (value, text) in [
        (Value::UInt(0), "u0"),
        (Value::UInt(u128::MAX), "u340282366920938463463374607431768211455"),
        (Value::Bool(true), "true"),
        (Value::Bool(false), "false"),
        (Value::Int(-4), "-4"),
        (Value::none(), "none"),
        (Value::some(Value::UInt(2)).unwrap(), "(some u2)"),
        (Value::buff_from(vec![0, 255]).unwrap(), "0x00ff"),
        (
            Value::string_utf8_from_bytes("a\u{e9}".as_bytes().to_vec()).unwrap(),
            "u\"a\\u{c3a9}\"",
        ),
    ] {
        let abort = AbortData::new(value.serialize_to_vec().unwrap()).unwrap();
        assert_eq!(abort.text(), text);
        assert_eq!(abort.text(), value.to_string());
    }
}

#[test]
fn nested_err_value_is_shown() {
    let mut value = Value::UInt(1);
    let mut text = "u1".to_string();
    for _ in 0..30 {
        value = Value::some(value).unwrap();
        text = format!("(some {text})");
    }
    let abort = AbortData::new(value.serialize_to_vec().unwrap()).unwrap();
    assert_eq!(abort.text(), text);
}

#[test]
fn err_value_gives_its_number() {
    for n in [0, 1, 255, 256, u128::MAX] {
        let abort = AbortData::new(Value::UInt(n).serialize_to_vec().unwrap()).unwrap();
        assert_eq!(abort.uint(), Some(n));
    }
    let mut bytes = vec![1; 17];
    assert_eq!(
        AbortData::new(bytes.clone()).unwrap().uint(),
        Some(0x01010101_01010101_01010101_01010101)
    );
    // what follows the value does not matter
    bytes.push(9);
    assert_eq!(
        AbortData::new(bytes).unwrap().uint(),
        Some(0x01010101_01010101_01010101_01010101)
    );
    for value in [Value::Int(7), Value::Bool(true), Value::none()] {
        let abort = AbortData::new(value.serialize_to_vec().unwrap()).unwrap();
        assert_eq!(abort.uint(), None);
    }
}

#[test]
fn bytes_without_a_value_are_no_err_value() {
    for bytes in [vec![], vec![1; 16], vec![15], vec![255; 40], vec![14, 0, 0, 0, 1, 255]] {
        assert!(AbortData::new(bytes).is_none());
    }
}
