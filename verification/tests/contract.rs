use clarity::vm::types::{
    BufferLength, ListTypeData, SequenceSubtype, TupleTypeSignature, TypeSignature,
};
use stackerdb_config::contract::{
    first_type_fault, ContractAnalysis, FixedFunction, FunctionType, RequiredFunctions, TypeFault,
};
use stackerdb_config::names::NameMap;
use stackerdb_config::signature::StacksEpochId;
use stackerdb_config::types::StackerDBConfig;

fn response(ok: TypeSignature, err: TypeSignature) -> TypeSignature {
    TypeSignature::new_response(ok, err).unwrap()
}

fn tuple(fields: Vec<(&str, TypeSignature)>) -> TypeSignature {
    let fields: Vec<_> = fields.into_iter().map(|(name, t)| (name.into(), t)).collect();
    TupleTypeSignature::try_from(fields).unwrap().into()
}

fn list(entry: TypeSignature, max_len: u32) -> TypeSignature {
    ListTypeData::new_list(entry, max_len).unwrap().into()
}

fn buffer(len: u32) -> TypeSignature {
    TypeSignature::SequenceType(SequenceSubtype::BufferType(
        BufferLength::try_from(len).unwrap(),
    ))
}

fn page_count_returns() -> TypeSignature {
    response(TypeSignature::UIntType, TypeSignature::BoolType)
}

fn slots_returns(max_len: u32) -> TypeSignature {
    response(
        list(
            tuple(vec![
                ("signer", TypeSignature::PrincipalType),
                ("num-slots", TypeSignature::UIntType),
            ]),
            max_len,
        ),
        TypeSignature::UIntType,
    )
}

fn config_returns(hash_len: u32, replicas: u32) -> TypeSignature {
    response(
        tuple(vec![
            ("chunk-size", TypeSignature::UIntType),
            ("write-freq", TypeSignature::UIntType),
            ("max-writes", TypeSignature::UIntType),
            ("max-neighbors", TypeSignature::UIntType),
            (
                "hint-replicas",
                list(
                    tuple(vec![
                        ("addr", list(TypeSignature::UIntType, 16)),
                        ("port", TypeSignature::UIntType),
                        ("public-key-hash", buffer(hash_len)),
                    ]),
                    replicas,
                ),
            ),
        ]),
        TypeSignature::UIntType,
    )
}

fn config_text(hash_len: u32, replicas: u32) -> String {
    format!(
        "(response (tuple (chunk-size uint) (hint-replicas (list {replicas} (tuple \
         (addr (list 16 uint)) (port uint) (public-key-hash (buff {hash_len}))))) \
         (max-neighbors uint) (max-writes uint) (write-freq uint)) uint)"
    )
}

fn fixed(args: Vec<TypeSignature>, returns: TypeSignature) -> FunctionType {
    FunctionType::Fixed(FixedFunction { args, returns })
}

fn functions() -> Vec<(&'static str, FunctionType)> {
    vec![
        ("stackerdb-get-page-count", fixed(vec![], page_count_returns())),
        (
            "stackerdb-get-signer-slots",
            fixed(vec![TypeSignature::UIntType], slots_returns(4096)),
        ),
        ("stackerdb-get-config", fixed(vec![], config_returns(20, 128))),
    ]
}

fn map(functions: Vec<(&str, FunctionType)>) -> NameMap<FunctionType> {
    let mut map = NameMap::new();
    for (name, function) in functions {
        map.insert(name.to_string(), function);
    }
    map
}

/// A contract with the required functions, of which one is another.
fn with(name: &str, function: FunctionType) -> ContractAnalysis {
    let mut read_only = map(functions());
    read_only.insert(name.to_string(), function);
    ContractAnalysis {
        read_only_function_types: read_only,
        public_function_types: NameMap::new(),
    }
}

fn without(name: &str) -> ContractAnalysis {
    let kept = functions().into_iter().filter(|f| f.0 != name).collect();
    ContractAnalysis {
        read_only_function_types: map(kept),
        public_function_types: NameMap::new(),
    }
}

fn check(analysis: &ContractAnalysis) -> Result<(), String> {
    StackerDBConfig::is_contract_valid(
        &RequiredFunctions::new(),
        &StacksEpochId::Epoch25,
        analysis,
    )
}

#[test]
fn exact_contract_conforms_in_every_epoch_but_the_first() {
    let analysis = with("unrelated", FunctionType::Other);
    let required = RequiredFunctions::new();
    for epoch in [
        StacksEpochId::Epoch20,
        StacksEpochId::Epoch2_05,
        StacksEpochId::Epoch21,
        StacksEpochId::Epoch22,
        StacksEpochId::Epoch23,
        StacksEpochId::Epoch24,
        StacksEpochId::Epoch25,
        StacksEpochId::Epoch30,
    ] {
        assert_eq!(
            StackerDBConfig::is_contract_valid(&required, &epoch, &analysis),
            Ok(())
        );
    }
    assert_eq!(
        StackerDBConfig::is_contract_valid(&required, &StacksEpochId::Epoch10, &analysis),
        Err(
            "Function 'stackerdb-get-page-count' has an invalid return type: \
             expected (response uint bool), got (response uint bool)"
                .to_string()
        )
    );
}

#[test]
fn missing_function_is_named() {
    for name in [
        "stackerdb-get-page-count",
        "stackerdb-get-signer-slots",
        "stackerdb-get-config",
    ] {
        assert_eq!(
            check(&without(name)),
            Err(format!("Contract is missing function '{name}'"))
        );
    }
}

#[test]
fn first_fault_is_the_one_reported() {
    let empty = ContractAnalysis {
        read_only_function_types: NameMap::new(),
        public_function_types: NameMap::new(),
    };
    assert_eq!(
        check(&empty),
        Err("Contract is missing function 'stackerdb-get-page-count'".to_string())
    );
}

#[test]
fn function_must_be_fixed() {
    assert_eq!(
        check(&with("stackerdb-get-signer-slots", FunctionType::Other)),
        Err("Function 'stackerdb-get-signer-slots' must be a fixed function".to_string())
    );
}

#[test]
fn number_of_arguments_must_fit() {
    assert_eq!(
        check(&with("stackerdb-get-signer-slots", fixed(vec![], slots_returns(4096)))),
        Err(
            "Function 'stackerdb-get-signer-slots' has an invalid signature: it must have 1 args"
                .to_string()
        )
    );
    assert_eq!(
        check(&with(
            "stackerdb-get-config",
            fixed(vec![TypeSignature::UIntType], config_returns(20, 128))
        )),
        Err(
            "Function 'stackerdb-get-config' has an invalid signature: it must have 0 args"
                .to_string()
        )
    );
}

#[test]
fn argument_type_must_fit() {
    assert_eq!(
        check(&with(
            "stackerdb-get-signer-slots",
            fixed(vec![TypeSignature::PrincipalType], slots_returns(4096))
        )),
        Err(
            "Function 'stackerdb-get-signer-slots' has an invalid argument type: \
             expected uint, got principal"
                .to_string()
        )
    );
}

#[test]
fn return_type_must_fit() {
    assert_eq!(
        check(&with(
            "stackerdb-get-page-count",
            fixed(vec![], response(TypeSignature::UIntType, TypeSignature::UIntType))
        )),
        Err(
            "Function 'stackerdb-get-page-count' has an invalid return type: \
             expected (response uint bool), got (response uint uint)"
                .to_string()
        )
    );
    assert_eq!(
        check(&with(
            "stackerdb-get-signer-slots",
            fixed(vec![TypeSignature::UIntType], slots_returns(4097))
        )),
        Err(
            "Function 'stackerdb-get-signer-slots' has an invalid return type: \
             expected (response (list 4096 (tuple (num-slots uint) (signer principal))) uint), \
             got (response (list 4097 (tuple (num-slots uint) (signer principal))) uint)"
                .to_string()
        )
    );
    assert_eq!(
        check(&with("stackerdb-get-config", fixed(vec![], TypeSignature::BoolType))),
        Err(
            "Function 'stackerdb-get-config' has an invalid return type: \
             expected (response (tuple (chunk-size uint) (hint-replicas (list 128 (tuple \
             (addr (list 16 uint)) (port uint) (public-key-hash (buff 20))))) \
             (max-neighbors uint) (max-writes uint) (write-freq uint)) uint), got bool"
                .to_string()
        )
    );
    for (hash_len, replicas) in [(21, 128), (20, 129)] {
        assert_eq!(
            check(&with(
                "stackerdb-get-config",
                fixed(vec![], config_returns(hash_len, replicas))
            )),
            Err(format!(
                "Function 'stackerdb-get-config' has an invalid return type: expected {}, got {}",
                config_text(20, 128),
                config_text(hash_len, replicas)
            ))
        );
    }
}

#[test]
fn narrower_return_type_is_admitted() {
    assert_eq!(
        check(&with(
            "stackerdb-get-signer-slots",
            fixed(vec![TypeSignature::UIntType], slots_returns(1))
        )),
        Ok(())
    );
    assert_eq!(
        check(&with("stackerdb-get-config", fixed(vec![], config_returns(19, 2)))),
        Ok(())
    );
    // a function that never fails has an unknown `err` type
    assert_eq!(
        check(&with(
            "stackerdb-get-page-count",
            fixed(vec![], response(TypeSignature::UIntType, TypeSignature::NoType))
        )),
        Ok(())
    );
}

#[test]
fn public_functions_serve_as_well() {
    let analysis = ContractAnalysis {
        read_only_function_types: NameMap::new(),
        public_function_types: map(functions()),
    };
    assert_eq!(check(&analysis), Ok(()));
}

#[test]
fn read_only_function_hides_the_public_one() {
    let good = ContractAnalysis {
        read_only_function_types: map(functions()),
        public_function_types: map(vec![("stackerdb-get-config", FunctionType::Other)]),
    };
    assert_eq!(check(&good), Ok(()));
    let bad = ContractAnalysis {
        read_only_function_types: map(vec![("stackerdb-get-config", FunctionType::Other)]),
        public_function_types: map(functions()),
    };
    assert_eq!(
        check(&bad),
        Err("Function 'stackerdb-get-config' must be a fixed function".to_string())
    );
}

#[test]
fn name_map_keeps_the_last_value_of_a_name() {
    let mut map = NameMap::new();
    assert_eq!(map.get("a"), None);
    map.insert("a".to_string(), 1u8);
    map.insert("b".to_string(), 2u8);
    map.insert("a".to_string(), 3u8);
    assert_eq!(map.get("a"), Some(&3));
    assert_eq!(map.get("b"), Some(&2));
    assert_eq!(map.get("c"), None);
}

#[test]
fn first_type_that_does_not_fit_is_found() {
    assert_eq!(first_type_fault(&vec![], true), None);
    assert_eq!(first_type_fault(&vec![], false), Some(TypeFault::Returns));
    assert_eq!(first_type_fault(&vec![true, true], true), None);
    assert_eq!(first_type_fault(&vec![true, true], false), Some(TypeFault::Returns));
    assert_eq!(
        first_type_fault(&vec![true, false, true, false], false),
        Some(TypeFault::Argument(1))
    );
    assert_eq!(first_type_fault(&vec![false], true), Some(TypeFault::Argument(0)));
}

#[test]
fn argument_is_reported_before_the_result() {
    assert_eq!(
        check(&with(
            "stackerdb-get-signer-slots",
            fixed(vec![TypeSignature::BoolType], TypeSignature::BoolType)
        )),
        Err(
            "Function 'stackerdb-get-signer-slots' has an invalid argument type: \
             expected uint, got bool"
                .to_string()
        )
    );
}
