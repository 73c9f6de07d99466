use clarity::vm::Value;
use stackerdb_config::names::NameMap;
use stackerdb_config::types::{
    Hash160, Limits, NeighborAddress, NetError, PeerAddress, QualifiedContractIdentifier,
    StackerDBConfig, StacksAddress, StandardPrincipalData,
};
use stackerdb_config::value::{AbortData, ClarityValue, ResponseData};

const ID: &str = "SP000000000000000000002Q6VF78.db";

fn id() -> QualifiedContractIdentifier {
    QualifiedContractIdentifier {
        issuer: StandardPrincipalData(22, [0; 20]),
        name: "db".to_string(),
    }
}

fn limits() -> Limits {
    Limits {
        inv_max: 4096,
        max_chunk_size: 2048,
    }
}

fn ok(value: ClarityValue) -> ClarityValue {
    ClarityValue::Response(ResponseData::Committed(Box::new(value)))
}

fn err(value: Value) -> ClarityValue {
    let abort = AbortData::new(value.serialize_to_vec().unwrap()).unwrap();
    ClarityValue::Response(ResponseData::Aborted(abort))
}

fn map(fields: Vec<(&str, ClarityValue)>) -> NameMap<ClarityValue> {
    let mut map = NameMap::new();
    for (name, value) in fields {
        map.insert(name.to_string(), value);
    }
    map
}

fn addr(bytes: &[u128]) -> ClarityValue {
    ClarityValue::List(bytes.iter().map(|byte| ClarityValue::UInt(*byte)).collect())
}

const BYTES: [u128; 16] = [0, 0, 0, 0, 0, 0, 0, 0, 0, 0, 255, 255, 127, 0, 0, 1];

fn replica(bytes: &[u128], port: u128, hash: Vec<u8>) -> ClarityValue {
    ClarityValue::Tuple(map(vec![
        ("addr", addr(bytes)),
        ("port", ClarityValue::UInt(port)),
        ("public-key-hash", ClarityValue::Buffer(hash)),
    ]))
}

fn fields(replicas: Vec<ClarityValue>) -> NameMap<ClarityValue> {
    map(vec![
        ("chunk-size", ClarityValue::UInt(2048)),
        ("write-freq", ClarityValue::UInt(60)),
        ("max-writes", ClarityValue::UInt(7)),
        ("max-neighbors", ClarityValue::UInt(32)),
        ("hint-replicas", ClarityValue::List(replicas)),
    ])
}

/// An answer in which one field is another.
fn with(name: &str, value: ClarityValue) -> ClarityValue {
    let mut tuple = fields(vec![]);
    tuple.insert(name.to_string(), value);
    ok(ClarityValue::Tuple(tuple))
}

fn with_replicas(replicas: Vec<ClarityValue>) -> ClarityValue {
    ok(ClarityValue::Tuple(fields(replicas)))
}

fn signers() -> Vec<(StacksAddress, u32)> {
    vec![(
        StacksAddress {
            version: 22,
            bytes: Hash160([4; 20]),
        },
        3,
    )]
}

fn read(value: &ClarityValue) -> Option<Result<StackerDBConfig, NetError>> {
    StackerDBConfig::try_eval_config(value, &id(), signers(), &limits())
}

fn refused(reason: &str) -> Option<Result<StackerDBConfig, NetError>> {
    Some(Err(NetError::InvalidStackerDBContract(
        id(),
        format!("Contract {ID} {reason}"),
    )))
}

#[test]
fn config_has_all_that_the_contract_states() {
    let value = with_replicas(vec![
        replica(&BYTES, 20444, (1..21).collect()),
        replica(&[9; 16], 1024, vec![7, 8]),
    ]);
    let mut padded = [0u8; 20];
    padded[0] = 7;
    padded[1] = 8;
    let full: Vec<u8> = (1..21).collect();
    let expected = StackerDBConfig {
        chunk_size: 2048,
        signers: signers(),
        write_freq: 60,
        max_writes: 7,
        hint_replicas: vec![
            NeighborAddress {
                addrbytes: PeerAddress([0, 0, 0, 0, 0, 0, 0, 0, 0, 0, 255, 255, 127, 0, 0, 1]),
                port: 20444,
                public_key_hash: Hash160(full.try_into().unwrap()),
            },
            NeighborAddress {
                addrbytes: PeerAddress([9; 16]),
                port: 1024,
                public_key_hash: Hash160(padded),
            },
        ],
        max_neighbors: 32,
    };
    assert_eq!(
        StackerDBConfig::eval_config(&value, &id(), signers(), &limits()),
        Ok(expected)
    );
    assert_eq!(read(&with_replicas(vec![])).unwrap().unwrap().hint_replicas, vec![]);
}

#[test]
fn failure_of_the_contract_shows_its_code() {
    for (code, text) in [
        (0u128, "0"),
        (10, "10"),
        (u128::MAX, "340282366920938463463374607431768211455"),
    ] {
        let value = err(Value::UInt(code));
        let reason = format!("failed to run `stackerdb-get-config`: err u{text}");
        assert_eq!(read(&value), refused(&reason));
    }
}

#[test]
fn chunk_size_is_bounded_by_the_node() {
    let config = read(&with("chunk-size", ClarityValue::UInt(2048))).unwrap().unwrap();
    assert_eq!(config.chunk_size, 2048);
    for size in [2049, u128::MAX] {
        assert_eq!(
            read(&with("chunk-size", ClarityValue::UInt(size))),
            refused("stipulates a chunk size beyond STACKERDB_MAX_CHUNK_SIZE")
        );
    }
}

#[test]
fn write_frequency_is_bounded() {
    let largest = ClarityValue::UInt(u64::MAX.into());
    assert_eq!(read(&with("write-freq", largest)).unwrap().unwrap().write_freq, u64::MAX);
    assert_eq!(
        read(&with("write-freq", ClarityValue::UInt(1 << 64))),
        refused("stipulates a write frequency beyond u64::MAX")
    );
}

#[test]
fn number_of_writes_is_bounded() {
    let largest = ClarityValue::UInt(u32::MAX.into());
    assert_eq!(read(&with("max-writes", largest)).unwrap().unwrap().max_writes, u32::MAX);
    assert_eq!(
        read(&with("max-writes", ClarityValue::UInt(1 << 32))),
        refused("stipulates a max-write bound beyond u32::MAX")
    );
}

#[test]
fn number_of_neighbors_is_bounded() {
    let largest = ClarityValue::UInt(usize::MAX as u128);
    assert_eq!(
        read(&with("max-neighbors", largest)).unwrap().unwrap().max_neighbors,
        usize::MAX
    );
    assert_eq!(
        read(&with("max-neighbors", ClarityValue::UInt(usize::MAX as u128 + 1))),
        refused("stipulates a maximum number of neighbors beyond usize::MAX")
    );
}

#[test]
fn address_must_have_sixteen_octets() {
    for bytes in [vec![], vec![1; 15], vec![1; 17]] {
        assert_eq!(
            read(&with_replicas(vec![replica(&bytes, 2000, vec![])])),
            refused("did not stipulate a full 16-octet IP address")
        );
    }
}

#[test]
fn address_must_be_made_of_bytes() {
    let mut bytes = BYTES;
    bytes[3] = 256;
    assert_eq!(
        read(&with_replicas(vec![replica(&bytes, 2000, vec![])])),
        refused("stipulates an addr byte above u8::MAX")
    );
    // before its length is looked at
    assert_eq!(
        read(&with_replicas(vec![replica(&[256], 2000, vec![])])),
        refused("stipulates an addr byte above u8::MAX")
    );
}

#[test]
fn port_must_be_in_range() {
    for port in [1024, 65534] {
        let value = with_replicas(vec![replica(&BYTES, port, vec![])]);
        let config = read(&value).unwrap().unwrap();
        assert_eq!(u128::from(config.hint_replicas[0].port), port);
    }
    for port in [0, 1023, 65535, 65536 + 2000, u128::MAX] {
        assert_eq!(
            read(&with_replicas(vec![replica(&BYTES, port, vec![])])),
            refused("stipulates a port lower than 1024 or above u16::MAX - 1")
        );
    }
}

#[test]
fn first_fault_of_the_config_decides() {
    let mut tuple = fields(vec![replica(&[1], 1, vec![]), ClarityValue::Other]);
    assert_eq!(
        read(&ok(ClarityValue::Tuple(fields(vec![
            replica(&[1], 1, vec![]),
            ClarityValue::Other
        ])))),
        refused("did not stipulate a full 16-octet IP address")
    );
    tuple.insert("max-writes".to_string(), ClarityValue::UInt(u128::MAX));
    tuple.insert("max-neighbors".to_string(), ClarityValue::Other);
    assert_eq!(
        read(&ok(ClarityValue::Tuple(tuple))),
        refused("stipulates a max-write bound beyond u32::MAX")
    );
}

#[test]
fn answer_of_another_type_gives_nothing() {
    assert_eq!(read(&ClarityValue::UInt(1)), None);
    assert_eq!(read(&ok(ClarityValue::UInt(1))), None);
    assert_eq!(read(&err(Value::Bool(true))), None);
    for name in [
        "chunk-size",
        "write-freq",
        "max-writes",
        "max-neighbors",
        "hint-replicas",
    ] {
        assert_eq!(read(&with(name, ClarityValue::Other)), None);
    }
    assert_eq!(read(&ok(ClarityValue::Tuple(map(vec![])))), None);
    assert_eq!(read(&with_replicas(vec![ClarityValue::UInt(1)])), None);
    // a hash of more than twenty bytes
    assert_eq!(read(&with_replicas(vec![replica(&BYTES, 2000, vec![1; 21])])), None);
    let odd_addr = ClarityValue::Tuple(map(vec![
        ("addr", ClarityValue::List(vec![ClarityValue::Other])),
        ("port", ClarityValue::UInt(2000)),
        ("public-key-hash", ClarityValue::Buffer(vec![])),
    ]));
    assert_eq!(read(&with_replicas(vec![odd_addr])), None);
}

#[test]
fn peer_address_takes_sixteen_bytes() {
    let bytes: Vec<u8> = (0..16).collect();
    assert_eq!(
        PeerAddress::from_slice(&bytes),
        Some(PeerAddress([0, 1, 2, 3, 4, 5, 6, 7, 8, 9, 10, 11, 12, 13, 14, 15]))
    );
    assert_eq!(PeerAddress::from_slice(&vec![0; 15]), None);
    assert_eq!(PeerAddress::from_slice(&vec![0; 17]), None);
}
