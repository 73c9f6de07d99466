use clarity::vm::types::{
    BufferLength, ListTypeData, SequenceSubtype, TupleTypeSignature, TypeSignature,
};
use clarity::vm::Value;
use stackerdb_config::contract::{
    ContractAnalysis, FixedFunction, FunctionType, RequiredFunctions,
};
use stackerdb_config::load::{
    Action, AnalysisReply, Call, ChainTip, Event, Fatal, Load, StacksBlockId, Step,
};
use stackerdb_config::names::NameMap;
use stackerdb_config::signature::StacksEpochId;
use stackerdb_config::types::{
    Hash160, Limits, NetError, PrincipalData, QualifiedContractIdentifier, StackerDBConfig,
    StacksAddress, StandardPrincipalData,
};
use stackerdb_config::value::{AbortData, ClarityValue, ResponseData};

const ID: &str = "SP000000000000000000002Q6VF78.db";

fn id() -> QualifiedContractIdentifier {
    QualifiedContractIdentifier {
        issuer: StandardPrincipalData(22, [0; 20]),
        name: "db".to_string(),
    }
}

fn limits() -> Limits {
    Limits {
        inv_max: 8,
        max_chunk_size: 2048,
    }
}

fn tip() -> ChainTip {
    ChainTip {
        consensus_hash: [1; 20],
        block_hash: [2; 32],
    }
}

fn block_id() -> StacksBlockId {
    StacksBlockId(
        stacks_common::types::chainstate::StacksBlockId::new(
            &stacks_common::types::chainstate::ConsensusHash([1; 20]),
            &stacks_common::types::chainstate::BlockHeaderHash([2; 32]),
        )
        .0,
    )
}

fn fixed(args: Vec<TypeSignature>, returns: TypeSignature) -> FunctionType {
    FunctionType::Fixed(FixedFunction { args, returns })
}

fn tuple_type(fields: Vec<(&str, TypeSignature)>) -> TypeSignature {
    let fields: Vec<_> = fields.into_iter().map(|(name, t)| (name.into(), t)).collect();
    TupleTypeSignature::try_from(fields).unwrap().into()
}

fn list_type(entry: TypeSignature, max_len: u32) -> TypeSignature {
    ListTypeData::new_list(entry, max_len).unwrap().into()
}

fn analysis() -> ContractAnalysis {
    let uint = TypeSignature::UIntType;
    let entry = tuple_type(vec![
        ("signer", TypeSignature::PrincipalType),
        ("num-slots", uint.clone()),
    ]);
    let hash = TypeSignature::SequenceType(SequenceSubtype::BufferType(
        BufferLength::try_from(20u32).unwrap(),
    ));
    let replica = tuple_type(vec![
        ("addr", list_type(uint.clone(), 16)),
        ("port", uint.clone()),
        ("public-key-hash", hash),
    ]);
    let config = tuple_type(vec![
        ("chunk-size", uint.clone()),
        ("write-freq", uint.clone()),
        ("max-writes", uint.clone()),
        ("max-neighbors", uint.clone()),
        ("hint-replicas", list_type(replica, 128)),
    ]);
    let mut functions = NameMap::new();
    functions.insert(
        "stackerdb-get-page-count".to_string(),
        fixed(
            vec![],
            TypeSignature::new_response(uint.clone(), TypeSignature::BoolType).unwrap(),
        ),
    );
    functions.insert(
        "stackerdb-get-signer-slots".to_string(),
        fixed(
            vec![uint.clone()],
            TypeSignature::new_response(list_type(entry, 4096), uint.clone()).unwrap(),
        ),
    );
    functions.insert(
        "stackerdb-get-config".to_string(),
        fixed(vec![], TypeSignature::new_response(config, uint).unwrap()),
    );
    ContractAnalysis {
        read_only_function_types: functions,
        public_function_types: NameMap::new(),
    }
}

fn ok(value: ClarityValue) -> ClarityValue {
    ClarityValue::Response(ResponseData::Committed(Box::new(value)))
}

fn err(value: Value) -> ClarityValue {
    let abort = AbortData::new(value.serialize_to_vec().unwrap()).unwrap();
    ClarityValue::Response(ResponseData::Aborted(abort))
}

fn tuple(fields: Vec<(&str, ClarityValue)>) -> ClarityValue {
    let mut map = NameMap::new();
    for (name, value) in fields {
        map.insert(name.to_string(), value);
    }
    ClarityValue::Tuple(map)
}

fn page(n: u8, slots: u128) -> ClarityValue {
    let signer = PrincipalData::Standard(StandardPrincipalData(22, [n; 20]));
    ok(ClarityValue::List(vec![tuple(vec![
        ("signer", ClarityValue::Principal(signer)),
        ("num-slots", ClarityValue::UInt(slots)),
    ])]))
}

fn config() -> ClarityValue {
    ok(tuple(vec![
        ("chunk-size", ClarityValue::UInt(1)),
        ("write-freq", ClarityValue::UInt(2)),
        ("max-writes", ClarityValue::UInt(3)),
        ("max-neighbors", ClarityValue::UInt(4)),
        ("hint-replicas", ClarityValue::List(vec![])),
    ]))
}

fn answer(value: ClarityValue) -> Event {
    Event::Answer(value)
}

/// Begins, and goes on with the events.
fn after(events: Vec<Event>) -> Load {
    let required = RequiredFunctions::new();
    let mut load = StackerDBConfig::from_smart_contract(&id(), &limits());
    for event in events {
        load = load.advance(event, &required);
    }
    load
}

/// The events up to a contract that conforms, and then some.
fn after_contract(answers: Vec<ClarityValue>) -> Load {
    let mut events = vec![
        Event::Tip(Some(tip())),
        Event::Snapshot(Some(77)),
        Event::Epoch(Some(StacksEpochId::Epoch24)),
        Event::Analysis(AnalysisReply::Found(analysis())),
    ];
    events.extend(answers.into_iter().map(answer));
    after(events)
}

fn result(load: Load) -> Result<StackerDBConfig, NetError> {
    assert_eq!(load.action(), Action::Return);
    match load.step {
        Step::Done(result) => result,
        other => panic!("not done: {other:?}"),
    }
}

fn invalid(reason: String) -> Result<StackerDBConfig, NetError> {
    Err(NetError::InvalidStackerDBContract(id(), reason))
}

#[test]
fn each_step_asks_for_what_it_needs() {
    assert_eq!(after(vec![]).action(), Action::ReadTip);
    assert_eq!(
        after(vec![Event::Tip(Some(tip()))]).action(),
        Action::ReadSnapshot([1; 20])
    );
    assert_eq!(
        after(vec![Event::Tip(Some(tip())), Event::Snapshot(Some(77))]).action(),
        Action::ReadEpoch(77)
    );
    assert_eq!(
        after(vec![
            Event::Tip(Some(tip())),
            Event::Snapshot(Some(77)),
            Event::Epoch(Some(StacksEpochId::Epoch24))
        ])
        .action(),
        Action::ReadAnalysis(block_id())
    );
    assert_eq!(
        after_contract(vec![]).action(),
        Action::Evaluate(block_id(), Call::PageCount)
    );
    let count = || ok(ClarityValue::UInt(2));
    assert_eq!(
        after_contract(vec![count()]).action(),
        Action::Evaluate(block_id(), Call::SlotsPage(0))
    );
    assert_eq!(
        after_contract(vec![count(), page(1, 1)]).action(),
        Action::Evaluate(block_id(), Call::SlotsPage(1))
    );
    assert_eq!(
        after_contract(vec![count(), page(1, 1), page(2, 2)]).action(),
        Action::Evaluate(block_id(), Call::Config)
    );
}

#[test]
fn block_id_depends_on_both_hashes() {
    assert_ne!(block_id().0, [2; 32]);
    let other = ChainTip {
        consensus_hash: [3; 20],
        block_hash: [2; 32],
    };
    let load = after(vec![
        Event::Tip(Some(other)),
        Event::Snapshot(Some(77)),
        Event::Epoch(Some(StacksEpochId::Epoch24)),
    ]);
    assert_ne!(load.action(), Action::ReadAnalysis(block_id()));
}

#[test]
fn config_is_loaded_with_the_signers_of_all_pages() {
    let load = after_contract(vec![
        ok(ClarityValue::UInt(2)),
        page(5, 3),
        page(6, 5),
        config(),
    ]);
    let signer = |n: u8| StacksAddress {
        version: 22,
        bytes: Hash160([n; 20]),
    };
    assert_eq!(
        result(load),
        Ok(StackerDBConfig {
            chunk_size: 1,
            signers: vec![(signer(5), 3), (signer(6), 5)],
            write_freq: 2,
            max_writes: 3,
            hint_replicas: vec![],
            max_neighbors: 4,
        })
    );
}

#[test]
fn no_pages_give_no_signers() {
    let load = after_contract(vec![ok(ClarityValue::UInt(0))]);
    assert_eq!(load.action(), Action::Evaluate(block_id(), Call::Config));
    let load = after_contract(vec![ok(ClarityValue::UInt(0)), config()]);
    assert_eq!(result(load).unwrap().signers, vec![]);
}

#[test]
fn without_a_tip_there_is_no_such_database() {
    assert_eq!(
        result(after(vec![Event::Tip(None)])),
        Err(NetError::NoSuchStackerDB(id()))
    );
}

#[test]
fn missing_contract_is_no_such_database() {
    let load = after(vec![
        Event::Tip(Some(tip())),
        Event::Snapshot(Some(77)),
        Event::Epoch(Some(StacksEpochId::Epoch24)),
        Event::Analysis(AnalysisReply::Missing),
    ]);
    assert_eq!(result(load), Err(NetError::NoSuchStackerDB(id())));
}

#[test]
fn unreadable_block_is_named_in_hexadecimal() {
    let load = after(vec![
        Event::Tip(Some(tip())),
        Event::Snapshot(Some(77)),
        Event::Epoch(Some(StacksEpochId::Epoch24)),
        Event::Analysis(AnalysisReply::Unavailable),
    ]);
    let hex: String = block_id().0.iter().map(|byte| format!("{byte:02x}")).collect();
    assert_eq!(
        result(load),
        invalid(format!("Could not evaluate contract {ID} at {hex}"))
    );
}

#[test]
fn contract_that_does_not_conform_is_not_called() {
    let mut bad = analysis();
    bad.read_only_function_types
        .insert("stackerdb-get-config".to_string(), FunctionType::Other);
    let load = after(vec![
        Event::Tip(Some(tip())),
        Event::Snapshot(Some(77)),
        Event::Epoch(Some(StacksEpochId::Epoch24)),
        Event::Analysis(AnalysisReply::Found(bad)),
    ]);
    assert_eq!(
        result(load),
        invalid(format!(
            "Contract {ID} does not conform to StackerDB trait: \
             Function 'stackerdb-get-config' must be a fixed function"
        ))
    );
}

#[test]
fn epoch_of_the_tip_decides_what_conforms() {
    let load = after(vec![
        Event::Tip(Some(tip())),
        Event::Snapshot(Some(77)),
        Event::Epoch(Some(StacksEpochId::Epoch10)),
        Event::Analysis(AnalysisReply::Found(analysis())),
    ]);
    assert_eq!(
        result(load),
        invalid(format!(
            "Contract {ID} does not conform to StackerDB trait: \
             Function 'stackerdb-get-page-count' has an invalid return type: \
             expected (response uint bool), got (response uint bool)"
        ))
    );
}

#[test]
fn error_of_the_page_count_ends_loading() {
    assert_eq!(
        result(after_contract(vec![err(Value::Bool(true))])),
        invalid(format!(
            "StackerDB fn `{ID}.stackerdb-get-page-count` failed: error true"
        ))
    );
}

#[test]
fn pages_beyond_the_limit_of_the_node_end_loading() {
    let load = after_contract(vec![ok(ClarityValue::UInt(9)), page(5, 3), page(6, 6)]);
    assert_eq!(
        result(load),
        invalid(format!(
            "Contract {ID} set more than the maximum number of slots in a page (max = 4096)"
        ))
    );
}

#[test]
fn error_of_a_page_ends_loading() {
    let load = after_contract(vec![ok(ClarityValue::UInt(1)), ClarityValue::Other]);
    assert_eq!(
        result(load),
        invalid(format!(
            "StackerDB fn `{ID}.stackerdb-get-signer-slots` returned unexpected non-response type"
        ))
    );
}

#[test]
fn error_of_the_config_ends_loading() {
    assert_eq!(
        result(after_contract(vec![ok(ClarityValue::UInt(0)), err(Value::UInt(40))])),
        invalid(format!(
            "Contract {ID} failed to run `stackerdb-get-config`: err u40"
        ))
    );
}

#[test]
fn faults_of_the_node_halt_loading() {
    assert_eq!(
        after(vec![Event::Tip(Some(tip())), Event::Snapshot(None)]).action(),
        Action::Halt(Fatal::MissingSnapshot)
    );
    assert_eq!(
        after(vec![
            Event::Tip(Some(tip())),
            Event::Snapshot(Some(77)),
            Event::Epoch(None)
        ])
        .action(),
        Action::Halt(Fatal::NoEpoch)
    );
    assert_eq!(
        after_contract(vec![ok(ClarityValue::UInt(0)), ClarityValue::Other]).action(),
        Action::Halt(Fatal::MisshapenConfig)
    );
}

#[test]
fn event_that_was_not_awaited_changes_nothing() {
    assert_eq!(after(vec![answer(config())]).action(), Action::ReadTip);
    assert_eq!(
        after(vec![
            Event::Tip(Some(tip())),
            Event::Tip(None),
            Event::Epoch(None)
        ])
        .action(),
        Action::ReadSnapshot([1; 20])
    );
    let ended = after(vec![
        Event::Tip(None),
        Event::Tip(Some(tip())),
        answer(config()),
    ]);
    assert_eq!(result(ended), Err(NetError::NoSuchStackerDB(id())));
    let halted = after(vec![
        Event::Tip(Some(tip())),
        Event::Snapshot(None),
        Event::Snapshot(Some(77)),
    ]);
    assert_eq!(halted.action(), Action::Halt(Fatal::MissingSnapshot));
}

#[test]
fn each_call_names_its_function_and_argument() {
    assert_eq!(Call::PageCount.function_name(), "stackerdb-get-page-count");
    assert_eq!(Call::PageCount.page_argument(), None);
    assert_eq!(Call::SlotsPage(3).function_name(), "stackerdb-get-signer-slots");
    assert_eq!(Call::SlotsPage(3).page_argument(), Some(3));
    assert_eq!(Call::SlotsPage(u32::MAX).page_argument(), Some(4294967295));
    assert_eq!(Call::Config.function_name(), "stackerdb-get-config");
    assert_eq!(Call::Config.page_argument(), None);
}

#[test]
fn nothing_is_asked_after_a_refused_page() {
    let load = after_contract(vec![
        ok(ClarityValue::UInt(3)),
        page(1, 1),
        page(2, 5000),
        page(3, 1),
        config(),
    ]);
    assert_eq!(
        result(load),
        invalid(format!(
            "Contract `{ID}` set too many slots for one signer (max = 4096)"
        ))
    );
}

#[test]
fn signers_of_the_pages_before_are_known_when_a_page_is_asked_for() {
    let load = after_contract(vec![ok(ClarityValue::UInt(3)), page(1, 2), page(2, 4)]);
    match load.step {
        Step::AwaitPage(block, slots, page, pages) => {
            assert_eq!(block, block_id());
            assert_eq!(slots.signers.len(), 2);
            assert_eq!(slots.total, 6);
            assert_eq!((page, pages), (2, 3));
        }
        other => panic!("no page is awaited: {other:?}"),
    }
}
